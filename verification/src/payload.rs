//! From a generation request to the prompt that the backend runs: the chosen workflow with the
//! request's parameters put into its nodes.
use crate::codec::{parse_bytes, parsed_bytes, parsed_text, render, rendered};
use crate::error::{ErrorView, ProxyError};
use crate::json::{lookup, with_member, Json, JsonObject, JsonTree};
use crate::nodes::{
    any_lacks_prompt, in_bound, inject_nodes, injected, injected_nodes, requested_seed_decides,
    some_lacks_prompt, SEED_BOUND,
};
use crate::workflows::{
    every_workflow_has_a_file, is_file_of, workflow_is_named_after_its_file, workflows_of,
    FolderEntry, Workflows,
};
use vstd::prelude::*;

verus! {

/// The workflow that a request chooses by its model, where there is one.
pub open spec fn chosen(request: JsonTree, workflows: Map<Seq<char>, JsonTree>) -> Option<
    JsonTree,
> {
    match request.text_at("model"@) {
        Some(model) => if workflows.contains_key(model) {
            Some(workflows[model])
        } else {
            None
        },
        None => None,
    }
}

/// The nodes of the workflow that a request chooses.
pub open spec fn chosen_nodes(request: JsonTree, workflows: Map<Seq<char>, JsonTree>) -> Seq<
    (Seq<char>, JsonTree),
> {
    match chosen(request, workflows) {
        Some(JsonTree::Object(nodes)) => nodes,
        _ => Seq::empty(),
    }
}

/// What the backend is sent: the prompt, and the client that waits for it.
pub open spec fn envelope(client_id: Seq<char>, prompt: JsonTree) -> JsonTree {
    JsonTree::Object(seq![("client_id"@, JsonTree::Text(client_id)), ("prompt"@, prompt)])
}

/// What the backend is sent for a request, or why nothing is. The request that is no object
/// chooses no workflow and is sent on as an empty prompt.
pub open spec fn payload_tree(
    request: JsonTree,
    workflows: Map<Seq<char>, JsonTree>,
    client_id: Seq<char>,
    drawn: Seq<u64>,
) -> Result<JsonTree, ErrorView> {
    if !(request is Object) {
        Ok(envelope(""@, JsonTree::Text(""@)))
    } else {
        match request.text_at("model"@) {
            None => Err(ErrorView::Json("Failed to get model name from JSON"@)),
            Some(model) => if !workflows.contains_key(model) {
                Err(ErrorView::Json("Workflow '"@ + model + "' not found"@))
            } else {
                match workflows[model] {
                    JsonTree::Object(nodes) => if some_lacks_prompt(nodes, request) {
                        Err(ErrorView::Json("Failed to get prompt from JSON"@))
                    } else {
                        Ok(
                            envelope(
                                client_id,
                                JsonTree::Object(injected_nodes(nodes, request, drawn)),
                            ),
                        )
                    },
                    workflow => Ok(envelope(client_id, workflow)),
                }
            },
        }
    }
}

fn make_envelope(client_id: &str, prompt: Json) -> (json: Json)
    ensures
        json.tree() == envelope(client_id@, prompt.tree()),
{
    let ghost tree = prompt.tree();
    let object = JsonObject::new().with("prompt", prompt).with(
        "client_id",
        Json::Text(client_id.to_owned()),
    );
    proof {
        reveal_strlit("client_id");
        reveal_strlit("prompt");
        let first = seq![("prompt"@, tree)];
        assert(with_member(Seq::empty(), "prompt"@, tree) =~= first);
        assert("client_id"@[0] == 'c' && "prompt"@[0] == 'p');
        assert(object.entries() =~= seq![
            ("client_id"@, JsonTree::Text(client_id@)),
            ("prompt"@, tree),
        ]);
    }
    Json::Object(object)
}

/// The bytes that the backend is sent for a request, or why nothing is.
pub open spec fn payload_bytes(
    request: JsonTree,
    workflows: Map<Seq<char>, JsonTree>,
    client_id: Seq<char>,
    drawn: Seq<u64>,
) -> Result<Seq<u8>, ErrorView> {
    match payload_tree(request, workflows, client_id, drawn) {
        Err(error) => Err(error),
        Ok(tree) => Ok(rendered(tree)),
    }
}

/// A result with bytes as a mathematical object.
pub open spec fn bytes_view(result: Result<Vec<u8>, ProxyError>) -> Result<Seq<u8>, ErrorView> {
    match result {
        Ok(bytes) => Ok(bytes@),
        Err(error) => Err(error@),
    }
}

/// How many nodes the workflow has that the request chooses.
pub fn count_nodes(request: &Json, workflows: &Workflows) -> (count: usize)
    ensures
        count == chosen_nodes(request.tree(), workflows@).len(),
{
    let workflow = match request.text_at("model") {
        Some(model) => workflows.get(model),
        None => None,
    };
    match workflow {
        Some(workflow) => match workflow.as_object() {
            Some(nodes) => nodes.len(),
            None => 0,
        },
        None => 0,
    }
}

/// The prompt for a request that was parsed, with one seed drawn for every node of the workflow
/// that it chooses, or why there is none.
pub fn build_payload(
    request: &Json,
    workflows: &Workflows,
    client_id: &str,
    drawn: &Vec<u64>,
) -> (payload: Result<Json, ProxyError>)
    requires
        drawn@.len() == chosen_nodes(request.tree(), workflows@).len(),
        in_bound(drawn@),
    ensures
        match payload {
            Ok(json) => payload_tree(request.tree(), workflows@, client_id@, drawn@) == Ok::<
                JsonTree,
                ErrorView,
            >(json.tree()),
            Err(error) => payload_tree(request.tree(), workflows@, client_id@, drawn@) == Err::<
                JsonTree,
                ErrorView,
            >(error@),
        },
{
    if request.as_object().is_none() {
        return Ok(make_envelope("", Json::Text("".to_owned())));
    }
    let model = match request.text_at("model") {
        Some(model) => model,
        None => return Err(ProxyError::Json("Failed to get model name from JSON".to_owned())),
    };
    let workflow = match workflows.get(model) {
        Some(workflow) => workflow,
        None => {
            let message = "Workflow '".to_owned().concat(model).concat("' not found");
            return Err(ProxyError::Json(message));
        },
    };
    match workflow.as_object() {
        Some(nodes) => {
            if any_lacks_prompt(nodes, request) {
                return Err(ProxyError::Json("Failed to get prompt from JSON".to_owned()));
            }
            let prompt = Json::Object(inject_nodes(nodes, request, drawn));
            Ok(make_envelope(client_id, prompt))
        },
        None => Ok(make_envelope(client_id, workflow.clone())),
    }
}

/// The payload where rendering it came out so.
pub fn take_rendering(outcome: Result<Vec<u8>, String>) -> (payload: Result<Vec<u8>, ProxyError>)
    ensures
        bytes_view(payload) == (match outcome {
            Ok(bytes) => Ok::<Seq<u8>, ErrorView>(bytes@),
            Err(message) => Err(ErrorView::Json("Failed to serialize JSON: "@ + message@)),
        }),
{
    match outcome {
        Ok(bytes) => Ok(bytes),
        Err(message) => {
            let text = "Failed to serialize JSON: ".to_owned().concat(message.as_str());
            Err(ProxyError::Json(text))
        },
    }
}

/// The bytes that the backend is sent for a request that was parsed. Its demands are those of
/// `build_payload`.
pub fn render_payload(
    request: &Json,
    workflows: &Workflows,
    client_id: &str,
    drawn: &Vec<u64>,
) -> (payload: Result<Vec<u8>, ProxyError>)
    requires
        drawn@.len() == chosen_nodes(request.tree(), workflows@).len(),
        in_bound(drawn@),
    ensures
        bytes_view(payload) == payload_bytes(request.tree(), workflows@, client_id@, drawn@),
{
    match build_payload(request, workflows, client_id, drawn) {
        Ok(json) => take_rendering(render(&json)),
        Err(error) => Err(error),
    }
}

/// `rand::Rng::random_range` on the generator of `rand::rng`: a number below the bound, drawn
/// anew by every call.
#[verifier::external_body]
fn random_below(bound: u64) -> (number: u64)
    requires
        0 < bound,
    ensures
        number < bound,
{
    rand::Rng::random_range(&mut rand::rng(), 0..bound)
}

fn draw_seeds(count: usize) -> (drawn: Vec<u64>)
    ensures
        drawn@.len() == count,
        in_bound(drawn@),
{
    let mut drawn: Vec<u64> = Vec::new();
    while drawn.len() < count
        invariant
            drawn.len() <= count,
            in_bound(drawn@),
        decreases count - drawn.len(),
    {
        drawn.push(random_below(SEED_BOUND));
    }
    drawn
}

/// What comes of the body of a generation request where those seeds were drawn.
pub open spec fn payload_outcome(
    body: Seq<u8>,
    workflows: Map<Seq<char>, JsonTree>,
    client_id: Seq<char>,
    drawn: Seq<u64>,
) -> Result<Seq<u8>, ErrorView> {
    if body.len() == 0 {
        Ok(body)
    } else {
        match parsed_bytes(body) {
            Err(message) => Err(ErrorView::Json("Failed to parse JSON: "@ + message)),
            Ok(request) => payload_bytes(request, workflows, client_id, drawn),
        }
    }
}

/// One seed below the bound was drawn for every node of the workflow that the body chooses.
pub open spec fn drawn_for(
    drawn: Seq<u64>,
    body: Seq<u8>,
    workflows: Map<Seq<char>, JsonTree>,
) -> bool {
    &&& in_bound(drawn)
    &&& parsed_bytes(body) matches Ok(request) ==> drawn.len() == chosen_nodes(
        request,
        workflows,
    ).len()
}

/// Turns the body of a generation request into the body of the backend's prompt request: an
/// empty one stays as it is, any other is parsed, and the workflow that it names as its model
/// gets its parameters.
pub fn create_json_payload(body: Vec<u8>, workflows: &Workflows, client_id: &str) -> (payload:
    Result<Vec<u8>, ProxyError>)
    ensures
        exists|drawn: Seq<u64>| #[trigger]
            drawn_for(drawn, body@, workflows@) && payload_outcome(
                body@,
                workflows@,
                client_id@,
                drawn,
            ) == bytes_view(payload),
{
    if body.is_empty() {
        proof {
            let count = match parsed_bytes(body@) {
                Ok(request) => chosen_nodes(request, workflows@).len(),
                Err(_) => 0,
            };
            assert(drawn_for(Seq::new(count, |i: int| 0u64), body@, workflows@));
        }
        return Ok(body);
    }
    let request = match parse_bytes(body.as_slice()) {
        Ok(request) => request,
        Err(message) => {
            assert(drawn_for(Seq::empty(), body@, workflows@));
            let text = "Failed to parse JSON: ".to_owned().concat(message.as_str());
            return Err(ProxyError::Json(text));
        },
    };
    let drawn = draw_seeds(count_nodes(&request, workflows));
    assert(drawn_for(drawn@, body@, workflows@));
    render_payload(&request, workflows, client_id, &drawn)
}

/// What is sent names the client that waits for it, and its prompt is the chosen workflow: the
/// same nodes in the same order, each with the parameters of the request in it.
pub proof fn workflow_keeps_its_nodes(
    request: JsonTree,
    workflows: Map<Seq<char>, JsonTree>,
    client_id: Seq<char>,
    drawn: Seq<u64>,
)
    requires
        request is Object,
        payload_tree(request, workflows, client_id, drawn) is Ok,
        chosen(request, workflows) matches Some(workflow) && workflow is Object,
    ensures
        ({
            let sent = payload_tree(request, workflows, client_id, drawn)->Ok_0;
            let nodes = chosen_nodes(request, workflows);
            &&& sent.text_at("client_id"@) == Some(client_id)
            &&& sent.at("prompt"@) matches JsonTree::Object(prompt) && prompt.len() == nodes.len()
                && forall|i: int|
                0 <= i < nodes.len() ==> #[trigger] prompt[i] == (
                    nodes[i].0,
                    injected(nodes[i].1, request, drawn[i]),
                )
        }),
{
    let prompt = JsonTree::Object(injected_nodes(chosen_nodes(request, workflows), request, drawn));
    envelope_reads_back(client_id, prompt);
}

/// The two members of what is sent can be told apart.
proof fn envelope_reads_back(client_id: Seq<char>, prompt: JsonTree)
    ensures
        envelope(client_id, prompt).at("client_id"@) == JsonTree::Text(client_id),
        envelope(client_id, prompt).at("prompt"@) == prompt,
{
    reveal_strlit("client_id");
    reveal_strlit("prompt");
    assert("client_id"@[0] == 'c' && "prompt"@[0] == 'p');
    reveal_with_fuel(lookup, 3);
    let members = envelope(client_id, prompt)->Object_0;
    assert(members.drop_first()[0] == ("prompt"@, prompt));
}

/// A request with a prompt, for a workflow that is there, is accepted.
pub proof fn complete_request_is_accepted(
    request: JsonTree,
    workflows: Map<Seq<char>, JsonTree>,
    client_id: Seq<char>,
    drawn: Seq<u64>,
)
    requires
        request.text_at("prompt"@) is Some,
        chosen(request, workflows) is Some,
    ensures
        payload_tree(request, workflows, client_id, drawn) is Ok,
{
}

/// A request is refused exactly where it is an object that names no model, names a model that
/// has no workflow, or lacks the prompt that a node of its workflow is to take.
pub proof fn refusals_have_a_reason(
    request: JsonTree,
    workflows: Map<Seq<char>, JsonTree>,
    client_id: Seq<char>,
    drawn: Seq<u64>,
)
    ensures
        payload_tree(request, workflows, client_id, drawn) is Err <==> request is Object && (chosen(
            request,
            workflows,
        ) is None || some_lacks_prompt(chosen_nodes(request, workflows), request)),
{
}

/// Of all the workflows only the one matters that the request chooses.
pub proof fn only_the_chosen_workflow_matters(
    request: JsonTree,
    some: Map<Seq<char>, JsonTree>,
    others: Map<Seq<char>, JsonTree>,
    client_id: Seq<char>,
    drawn: Seq<u64>,
)
    requires
        chosen(request, some) == chosen(request, others),
    ensures
        payload_tree(request, some, client_id, drawn) == payload_tree(
            request,
            others,
            client_id,
            drawn,
        ),
{
}

/// A request that has a seed always has the same payload: what was drawn makes no difference.
pub proof fn requested_seed_makes_the_payload_certain(
    body: Seq<u8>,
    workflows: Map<Seq<char>, JsonTree>,
    client_id: Seq<char>,
    some: Seq<u64>,
    others: Seq<u64>,
)
    requires
        parsed_bytes(body) matches Ok(request) ==> request.integer_at("seed"@) is Some,
    ensures
        payload_outcome(body, workflows, client_id, some) == payload_outcome(
            body,
            workflows,
            client_id,
            others,
        ),
{
    if let Ok(request) = parsed_bytes(body) {
        let nodes = chosen_nodes(request, workflows);
        assert forall|i: int| 0 <= i < nodes.len() implies #[trigger] injected(
            nodes[i].1,
            request,
            some[i],
        ) == injected(nodes[i].1, request, others[i]) by {
            requested_seed_decides(nodes[i].1, request, some[i], others[i]);
        }
        assert(injected_nodes(nodes, request, some) =~= injected_nodes(nodes, request, others));
    }
}

/// A request runs the workflow of the file that it names as its model: of a folder that loads,
/// the last JSON file of that name without the ending.
pub proof fn model_names_its_file(
    request: JsonTree,
    entries: Seq<FolderEntry>,
    at: int,
    model: Seq<char>,
)
    requires
        request.text_at("model"@) == Some(model),
        workflows_of(entries) is Ok,
        0 <= at < entries.len(),
        is_file_of(entries[at], model),
        forall|k: int| at < k < entries.len() ==> !is_file_of(#[trigger] entries[k], model),
    ensures
        entries[at]->File_0.content matches Ok(text) && parsed_text(text@) matches Ok(workflow)
            && chosen(request, workflows_of(entries)->Ok_0) == Some(workflow),
{
    workflow_is_named_after_its_file(entries, at, model);
}

/// A model that no file is named after is refused by its name.
pub proof fn model_without_file_is_refused(
    request: JsonTree,
    entries: Seq<FolderEntry>,
    model: Seq<char>,
    client_id: Seq<char>,
    drawn: Seq<u64>,
)
    requires
        request.text_at("model"@) == Some(model),
        workflows_of(entries) is Ok,
        forall|k: int| 0 <= k < entries.len() ==> !is_file_of(#[trigger] entries[k], model),
    ensures
        payload_tree(request, workflows_of(entries)->Ok_0, client_id, drawn) == Err::<
            JsonTree,
            ErrorView,
        >(ErrorView::Json("Workflow '"@ + model + "' not found"@)),
{
    if workflows_of(entries)->Ok_0.contains_key(model) {
        every_workflow_has_a_file(entries, model);
    }
}

} // verus!
