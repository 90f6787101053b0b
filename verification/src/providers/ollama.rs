//! The Ollama prompt formatter: renders conversation state, an optional
//! system message and the available tools into the single prompt text
//! that an Ollama generation request carries.

use vstd::prelude::*;

use crate::history::ContextBuilder;
use crate::model::MessageRole;
use crate::model::MessageView;
use crate::model::ToolDescriptor;
use crate::model::ToolDescriptorView;

verus! {

/// The role marker a message renders under.
pub open spec fn role_marker(r: MessageRole) -> Seq<char> {
    match r {
        MessageRole::User => "user"@,
        MessageRole::Model => "assistant"@,
        MessageRole::System => "system"@,
        MessageRole::Function => "function"@,
        MessageRole::Tool => "function"@,
    }
}

/// The leading system section: empty when no system message is given.
pub open spec fn system_section(sys: Seq<char>) -> Seq<char> {
    if sys.len() == 0 {
        Seq::<char>::empty()
    } else {
        "system\n"@ + sys + "\n\n"@
    }
}

/// One tool's rendering in the tools section.
pub open spec fn rendered_tool(t: ToolDescriptorView) -> Seq<char> {
    "Tool name: "@ + t.name + "\nDescription: "@ + t.description + "\nParameters: "@ + t.schema
        + "\nRequired: "@ + (if t.required {
        "true"@
    } else {
        "false"@
    }) + "\n\n"@
}

/// The tools rendered one after another, in order.
pub open spec fn rendered_tools(ts: Seq<ToolDescriptorView>) -> Seq<char>
    decreases ts.len(),
{
    if ts.len() == 0 {
        Seq::<char>::empty()
    } else {
        rendered_tools(ts.drop_last()) + rendered_tool(ts.last())
    }
}

/// The tools section: empty when no tools are given.
pub open spec fn tools_section(ts: Option<Seq<ToolDescriptorView>>) -> Seq<char> {
    match ts {
        None => Seq::<char>::empty(),
        Some(ts) => "Available tools:\n"@ + rendered_tools(ts),
    }
}

/// One history message's rendering: its role marker, then its content.
pub open spec fn rendered_message(m: MessageView) -> Seq<char> {
    role_marker(m.role) + "\n"@ + m.content + "\n\n"@
}

/// The conversation history rendered in order.
pub open spec fn history_section(ms: Seq<MessageView>) -> Seq<char>
    decreases ms.len(),
{
    if ms.len() == 0 {
        Seq::<char>::empty()
    } else {
        history_section(ms.drop_last()) + rendered_message(ms.last())
    }
}

/// The whole prompt: system section, tools section, history, and the
/// final role marker for the model's turn.
pub open spec fn ollama_prompt(
    sys: Seq<char>,
    ts: Option<Seq<ToolDescriptorView>>,
    ms: Seq<MessageView>,
) -> Seq<char> {
    system_section(sys) + tools_section(ts) + history_section(ms) + "assistant\n"@
}

/// Renders one tool into the growing prompt.
fn push_tool(prompt: &mut String, tool: &ToolDescriptor)
    ensures
        final(prompt)@ == old(prompt)@ + rendered_tool(tool@),
{
    prompt.append("Tool name: ");
    prompt.append(tool.name.as_str());
    prompt.append("\nDescription: ");
    prompt.append(tool.description.as_str());
    prompt.append("\nParameters: ");
    prompt.append(tool.schema.as_str());
    prompt.append("\nRequired: ");
    if tool.required {
        prompt.append("true");
    } else {
        prompt.append("false");
    }
    prompt.append("\n\n");
    proof {
        assert(prompt@ =~= old(prompt)@ + rendered_tool(tool@));
    }
}

/// Formats a prompt for Ollama: the system message if any, the tool
/// definitions if any, the conversation history in order under role
/// markers, and a final role marker for the model's response.
pub fn format_ollama_prompt(
    context: &ContextBuilder,
    system_message: &str,
    tools: &Option<Vec<ToolDescriptor>>,
) -> (r: String)
    ensures
        r@ == ollama_prompt(system_message@, tools.deep_view(), context@),
{
    let mut prompt = String::new();

    if !system_message.is_empty() {
        prompt.append("system\n");
        prompt.append(system_message);
        prompt.append("\n\n");
    }
    proof {
        assert(prompt@ =~= system_section(system_message@));
    }

    if let Some(tool_list) = tools {
        prompt.append("Available tools:\n");
        let ghost tools_so_far = Seq::<ToolDescriptorView>::empty();
        let mut i: usize = 0;
        proof {
            assert(rendered_tools(tool_list.deep_view().take(0)) =~= Seq::<char>::empty());
            assert(prompt@ =~= system_section(system_message@) + "Available tools:\n"@
                + rendered_tools(tool_list.deep_view().take(0)));
        }
        while i < tool_list.len()
            invariant
                0 <= i <= tool_list@.len(),
                prompt@ == system_section(system_message@) + "Available tools:\n"@
                    + rendered_tools(tool_list.deep_view().take(i as int)),
            decreases tool_list@.len() - i,
        {
            push_tool(&mut prompt, &tool_list[i]);
            proof {
                assert(tool_list.deep_view().take(i as int + 1).drop_last()
                    =~= tool_list.deep_view().take(i as int));
                assert(prompt@ =~= system_section(system_message@) + "Available tools:\n"@
                    + rendered_tools(tool_list.deep_view().take(i as int + 1)));
            }
            i += 1;
        }
        proof {
            assert(tool_list.deep_view().take(tool_list@.len() as int)
                =~= tool_list.deep_view());
            assert(prompt@ =~= system_section(system_message@) + tools_section(
                tools.deep_view(),
            ));
        }
    }
    proof {
        assert(prompt@ =~= system_section(system_message@) + tools_section(tools.deep_view()));
    }

    let ghost before_history = prompt@;
    let mut j: usize = 0;
    proof {
        assert(history_section(context.history.deep_view().take(0)) =~= Seq::<char>::empty());
        assert(prompt@ =~= before_history + history_section(
            context.history.deep_view().take(0),
        ));
    }
    while j < context.history.len()
        invariant
            0 <= j <= context.history@.len(),
            prompt@ == before_history + history_section(
                context.history.deep_view().take(j as int),
            ),
        decreases context.history@.len() - j,
    {
        let msg = &context.history[j];
        match msg.role {
            MessageRole::User => prompt.append("user"),
            MessageRole::Model => prompt.append("assistant"),
            MessageRole::System => prompt.append("system"),
            MessageRole::Function => prompt.append("function"),
            MessageRole::Tool => prompt.append("function"),
        }
        prompt.append("\n");
        prompt.append(msg.content.as_str());
        prompt.append("\n\n");
        proof {
            assert(context.history.deep_view().take(j as int + 1).drop_last()
                =~= context.history.deep_view().take(j as int));
            assert(prompt@ =~= before_history + history_section(
                context.history.deep_view().take(j as int + 1),
            ));
        }
        j += 1;
    }
    proof {
        assert(context.history.deep_view().take(context.history@.len() as int)
            =~= context.history.deep_view());
    }

    prompt.append("assistant\n");
    proof {
        assert(prompt@ =~= ollama_prompt(system_message@, tools.deep_view(), context@));
    }
    prompt
}

} // verus!
