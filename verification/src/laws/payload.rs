//! What the backend is sent for a request.
use crate::codec::{parsed_bytes, rendered};
use crate::error::{ErrorView, ProxyError};
use crate::json::JsonTree;
use crate::laws::nodes::holds_the_prompt;
use crate::nodes::injected;
use crate::payload::{bytes_view, drawn_for, payload_outcome, payload_tree};
use vstd::prelude::*;

verus! {

/// Where a request names a workflow that is there, and has a prompt or needs none, exactly two
/// things are sent: the client, and the workflow with every node in its place, changed by itself.
pub proof fn the_named_workflow_is_sent(
    request: JsonTree,
    workflows: Map<Seq<char>, JsonTree>,
    model: Seq<char>,
    nodes: Seq<(Seq<char>, JsonTree)>,
    client_id: Seq<char>,
    drawn: Seq<u64>,
)
    requires
        request.text_at("model"@) == Some(model),
        workflows.contains_key(model),
        workflows[model] == JsonTree::Object(nodes),
        request.text_at("prompt"@) is Some || forall|i: int|
            0 <= i < nodes.len() ==> !(holds_the_prompt((#[trigger] nodes[i]).1) && nodes[i].1.at(
                "inputs"@,
            ) is Object),
    ensures
        ({
            let sent = payload_tree(request, workflows, client_id, drawn);
            &&& sent matches Ok(JsonTree::Object(members)) && members.len() == 2 && members[0] == (
                "client_id"@,
                JsonTree::Text(client_id),
            ) && members[1].0 == "prompt"@ && (members[1].1 matches JsonTree::Object(prompt)
                && prompt.len() == nodes.len() && forall|i: int|
                0 <= i < nodes.len() ==> (#[trigger] prompt[i]).0 == nodes[i].0 && prompt[i].1
                    == injected(nodes[i].1, request, drawn[i]))
        }),
{
}

/// A request without a prompt is refused where a node of its workflow holds the prompt.
pub proof fn a_missing_prompt_is_refused(
    request: JsonTree,
    workflows: Map<Seq<char>, JsonTree>,
    model: Seq<char>,
    nodes: Seq<(Seq<char>, JsonTree)>,
    at: int,
    client_id: Seq<char>,
    drawn: Seq<u64>,
)
    requires
        request.text_at("model"@) == Some(model),
        workflows.contains_key(model),
        workflows[model] == JsonTree::Object(nodes),
        request.text_at("prompt"@) is None,
        0 <= at < nodes.len(),
        holds_the_prompt(nodes[at].1),
        nodes[at].1.at("inputs"@) is Object,
    ensures
        payload_tree(request, workflows, client_id, drawn) == Err::<JsonTree, ErrorView>(
            ErrorView::Json("Failed to get prompt from JSON"@),
        ),
{
    crate::laws::nodes::classes_differ(nodes[at].1.text_at("class_type"@)->0);
    assert(crate::nodes::lacks_prompt(nodes[at].1, request));
}

/// A request is refused where it names no model, and by the model's name where that has no
/// workflow. What is no request object runs nothing, and a workflow that is no object is sent as
/// it is.
pub proof fn other_requests_are_answered_by_what_they_lack(
    request: JsonTree,
    workflows: Map<Seq<char>, JsonTree>,
    client_id: Seq<char>,
    drawn: Seq<u64>,
)
    ensures
        ({
            let sent = payload_tree(request, workflows, client_id, drawn);
            &&& !(request is Object) ==> sent == Ok::<JsonTree, ErrorView>(
                JsonTree::Object(
                    seq![
                        ("client_id"@, JsonTree::Text(""@)),
                        ("prompt"@, JsonTree::Text(""@)),
                    ],
                ),
            )
            &&& request is Object && request.text_at("model"@) is None ==> sent == Err::<
                JsonTree,
                ErrorView,
            >(ErrorView::Json("Failed to get model name from JSON"@))
            &&& request.text_at("model"@) matches Some(model) ==> !workflows.contains_key(model)
                ==> sent == Err::<JsonTree, ErrorView>(
                ErrorView::Json("Workflow '"@ + model + "' not found"@),
            )
            &&& request.text_at("model"@) matches Some(model) ==> workflows.contains_key(model)
                && !(workflows[model] is Object) ==> sent == Ok::<JsonTree, ErrorView>(
                JsonTree::Object(
                    seq![
                        ("client_id"@, JsonTree::Text(client_id)),
                        ("prompt"@, workflows[model]),
                    ],
                ),
            )
        }),
{
}

/// An empty body stays empty, one that is no JSON is refused with the parser's reason, and any
/// other one becomes what is sent for it, written out as JSON.
pub proof fn bodies_become_what_is_sent_for_them(
    body: Seq<u8>,
    workflows: Map<Seq<char>, JsonTree>,
    client_id: Seq<char>,
    drawn: Seq<u64>,
)
    ensures
        ({
            let outcome = payload_outcome(body, workflows, client_id, drawn);
            &&& body.len() == 0 ==> outcome == Ok::<Seq<u8>, ErrorView>(Seq::empty())
            &&& body.len() > 0 ==> (parsed_bytes(body) matches Err(message) ==> outcome == Err::<
                Seq<u8>,
                ErrorView,
            >(ErrorView::Json("Failed to parse JSON: "@ + message)))
            &&& body.len() > 0 ==> (parsed_bytes(body) matches Ok(request) ==> (payload_tree(
                request,
                workflows,
                client_id,
                drawn,
            ) matches Ok(sent) ==> outcome == Ok::<Seq<u8>, ErrorView>(rendered(sent))))
            &&& body.len() > 0 ==> (parsed_bytes(body) matches Ok(request) ==> (payload_tree(
                request,
                workflows,
                client_id,
                drawn,
            ) matches Err(error) ==> outcome == Err::<Seq<u8>, ErrorView>(error)))
        }),
{
    if body.len() == 0 {
        assert(body =~= Seq::empty());
    }
}

/// One seed below a thousand million is drawn for every node of the named workflow.
pub proof fn every_node_has_a_seed_drawn(
    drawn: Seq<u64>,
    body: Seq<u8>,
    workflows: Map<Seq<char>, JsonTree>,
    request: JsonTree,
    model: Seq<char>,
    nodes: Seq<(Seq<char>, JsonTree)>,
)
    requires
        drawn_for(drawn, body, workflows),
        parsed_bytes(body) == Ok::<JsonTree, Seq<char>>(request),
        request.text_at("model"@) == Some(model),
        workflows.contains_key(model),
        workflows[model] == JsonTree::Object(nodes),
    ensures
        drawn.len() == nodes.len(),
        forall|i: int| 0 <= i < drawn.len() ==> #[trigger] drawn[i] < 1_000_000_000,
{
}

/// Errors, and outcomes with bytes, are seen as what they hold.
pub proof fn outcomes_with_bytes_are_seen_as_they_are(
    bytes: Vec<u8>,
    message: String,
    error: ProxyError,
)
    ensures
        bytes_view(Ok(bytes)) == Ok::<Seq<u8>, ErrorView>(bytes@),
        bytes_view(Err(error)) == Err::<Seq<u8>, ErrorView>(error@),
        ProxyError::Internal(message)@ == ErrorView::Internal(message@),
        ProxyError::Json(message)@ == ErrorView::Json(message@),
        ProxyError::Upstream(message)@ == ErrorView::Upstream(message@),
{
}

} // verus!
