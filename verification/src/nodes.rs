//! The nodes of a workflow: which parameters of a request each of them takes, and how they are put
//! into it.
use crate::json::{
    ascending, entries, lookup, lookup_gives_what_was_set, member_stands_at_its_rank,
    setting_leaves_other_keys, with_member, with_member_keeps_ascending, Json, JsonObject,
    JsonTree,
};
use crate::text::{
    contains_text, decimal, decimal_reads_back, first_pieces, has_part, integer_of,
    integer_of_decimal, parse_integer, pieces_of_two, same, split,
};
use vstd::prelude::*;

verus! {

/// Random seeds are drawn below this number.
pub const SEED_BOUND: u64 = 1_000_000_000;

/// The number that stands for a piece of a size that is no integer.
pub const FALLBACK_PIECE: i64 = 512;

/// The height where a size has one piece only.
pub const FALLBACK_HEIGHT: i64 = 1024;

/// What a node of a workflow is to the parameters of a request.
#[derive(Debug, Clone, Copy, PartialEq, Eq, Structural)]
pub enum NodeKind {
    /// It takes the seed.
    Seed,
    /// It takes the size and the number of images.
    Size,
    /// It takes a prompt.
    Prompt,
    /// It takes nothing.
    Other,
}

/// Which prompt a prompt node takes.
#[derive(Debug, Clone, Copy, PartialEq, Eq, Structural)]
pub enum PromptRole {
    Positive,
    Negative,
    Neither,
}

/// The kind of the nodes of that class.
pub open spec fn node_kind(class: Seq<char>) -> NodeKind {
    if class == "KSampler"@ || class == "easy seed"@ {
        NodeKind::Seed
    } else if class == "EmptyLatentImage"@ || class == "EmptySD3LatentImage"@ || class
        == "EmptyFlux2LatentImage"@ || class == "EmptyHunyuanLatentVideo"@ || class
        == "VHS_VideoCombine"@ {
        NodeKind::Size
    } else if class == "CLIPTextEncode"@ || class == "CR Text"@ || class == "easy promptLine"@ {
        NodeKind::Prompt
    } else {
        NodeKind::Other
    }
}

fn kind_of_class(class: &str) -> (kind: NodeKind)
    ensures
        kind == node_kind(class@),
{
    if same(class, "KSampler") || same(class, "easy seed") {
        NodeKind::Seed
    } else if same(class, "EmptyLatentImage") || same(class, "EmptySD3LatentImage") || same(
        class,
        "EmptyFlux2LatentImage",
    ) || same(class, "EmptyHunyuanLatentVideo") || same(class, "VHS_VideoCombine") {
        NodeKind::Size
    } else if same(class, "CLIPTextEncode") || same(class, "CR Text") || same(
        class,
        "easy promptLine",
    ) {
        NodeKind::Prompt
    } else {
        NodeKind::Other
    }
}

/// The title is that of a node for the prompt: it has a mark of such nodes in it, or is the title
/// that a `CR Text` node has by default.
pub open spec fn is_positive_title(title: Seq<char>) -> bool {
    contains_text(title, "Positive Prompt"@) || contains_text(title, "CLIP文本编码"@)
        || contains_text(title, "提示词行"@) || title == "🔤 CR Text"@
}

/// The title is that of a node for the negative prompt: in the class `CLIPTextEncode` it has a
/// mark of such nodes in it, in another class it is such a mark.
pub open spec fn is_negative_title(class: Seq<char>, title: Seq<char>) -> bool {
    if class == "CLIPTextEncode"@ {
        contains_text(title, "Negative Prompt"@) || contains_text(title, "条件零化"@)
    } else {
        title == "Negative Prompt"@ || title == "条件零化"@
    }
}

/// The prompt that a node of that class with that title takes. A title that is both takes the
/// prompt.
pub open spec fn role_of_title(class: Seq<char>, title: Seq<char>) -> PromptRole {
    if is_positive_title(title) {
        PromptRole::Positive
    } else if is_negative_title(class, title) {
        PromptRole::Negative
    } else {
        PromptRole::Neither
    }
}

/// The prompt that a node takes: its class and the title of its metadata say which.
pub open spec fn prompt_role(node: JsonTree) -> PromptRole {
    match (node.text_at("class_type"@), node.at("_meta"@).text_at("title"@)) {
        (Some(class), Some(title)) => role_of_title(class, title),
        _ => PromptRole::Neither,
    }
}

fn has_positive_title(title: &str) -> (positive: bool)
    ensures
        positive == is_positive_title(title@),
{
    has_part(title, "Positive Prompt") || has_part(title, "CLIP文本编码") || has_part(
        title,
        "提示词行",
    ) || same(title, "🔤 CR Text")
}

fn has_negative_title(class: &str, title: &str) -> (negative: bool)
    ensures
        negative == is_negative_title(class@, title@),
{
    if same(class, "CLIPTextEncode") {
        has_part(title, "Negative Prompt") || has_part(title, "条件零化")
    } else {
        same(title, "Negative Prompt") || same(title, "条件零化")
    }
}

fn role_of_node(node: &Json) -> (role: PromptRole)
    ensures
        role == prompt_role(node.tree()),
{
    let title = match node.get("_meta") {
        Some(meta) => meta.text_at("title"),
        None => None,
    };
    match (node.text_at("class_type"), title) {
        (Some(class), Some(title)) => if has_positive_title(title) {
            PromptRole::Positive
        } else if has_negative_title(class, title) {
            PromptRole::Negative
        } else {
            PromptRole::Neither
        },
        _ => PromptRole::Neither,
    }
}

/// The kind of a node: that of its class, if it has one.
pub open spec fn kind_of_tree(node: JsonTree) -> NodeKind {
    match node.text_at("class_type"@) {
        Some(class) => node_kind(class),
        None => NodeKind::Other,
    }
}

fn kind_of_node(node: &Json) -> (kind: NodeKind)
    ensures
        kind == kind_of_tree(node.tree()),
{
    match node.text_at("class_type") {
        Some(class) => kind_of_class(class),
        None => NodeKind::Other,
    }
}

/// The node is to take the prompt into its inputs, and the request has none.
pub open spec fn lacks_prompt(node: JsonTree, request: JsonTree) -> bool {
    kind_of_tree(node) == NodeKind::Prompt && prompt_role(node) == PromptRole::Positive && node.at(
        "inputs"@,
    ) is Object && request.text_at("prompt"@) is None
}

fn node_lacks_prompt(node: &Json, request: &Json) -> (lacking: bool)
    ensures
        lacking == lacks_prompt(node.tree(), request.tree()),
{
    let has_inputs = match node.get("inputs") {
        Some(inputs) => inputs.as_object().is_some(),
        None => false,
    };
    kind_of_node(node) == NodeKind::Prompt && role_of_node(node) == PromptRole::Positive
        && has_inputs && request.text_at("prompt").is_none()
}

/// A piece of a size as a number.
pub open spec fn piece_number(piece: Seq<char>) -> i64 {
    match integer_of(piece) {
        Some(number) => number,
        None => FALLBACK_PIECE,
    }
}

/// The width that a size asks for: its first piece.
pub open spec fn width_of(size: Seq<char>) -> i64 {
    piece_number(split(size, 'x')[0])
}

/// The height that a size asks for: its second piece, if it has one.
pub open spec fn height_of(size: Seq<char>) -> i64 {
    if split(size, 'x').len() > 1 {
        piece_number(split(size, 'x')[1])
    } else {
        FALLBACK_HEIGHT
    }
}

fn number_of_piece(piece: &str) -> (number: i64)
    ensures
        number == piece_number(piece@),
{
    match parse_integer(piece) {
        Some(number) => number,
        None => FALLBACK_PIECE,
    }
}

/// The width and the height that a size such as `1024x768` asks for.
pub fn parse_size(size: &str) -> (dimensions: (i64, i64))
    ensures
        dimensions == (width_of(size@), height_of(size@)),
{
    let (first, second) = first_pieces(size, 'x');
    let width = number_of_piece(first);
    let height = match second {
        Some(piece) => number_of_piece(piece),
        None => FALLBACK_HEIGHT,
    };
    (width, height)
}

/// The input that a prompt node of that class takes its prompt in.
pub open spec fn prompt_key(class: Seq<char>) -> Seq<char> {
    if class == "easy promptLine"@ {
        "prompt"@
    } else {
        "text"@
    }
}

/// The seed that a seed node gets: the request's, or the drawn one.
pub open spec fn seed_of(request: JsonTree, drawn: u64) -> i64 {
    match request.integer_at("seed"@) {
        Some(seed) => seed,
        None => drawn as i64,
    }
}

/// What the request sets in the inputs of a size node.
pub open spec fn size_settings(request: JsonTree) -> Seq<(Seq<char>, JsonTree)> {
    (match request.text_at("size"@) {
        Some(size) => seq![
            ("width"@, JsonTree::Integer(width_of(size))),
            ("height"@, JsonTree::Integer(height_of(size))),
        ],
        None => Seq::empty(),
    }) + (match request.integer_at("n"@) {
        Some(copies) => seq![("batch_size"@, JsonTree::Integer(copies))],
        None => Seq::empty(),
    })
}

/// A text member of the request as the setting of an input, if the request has it.
pub open spec fn text_setting(
    request: JsonTree,
    member: Seq<char>,
    input: Seq<char>,
) -> Seq<(Seq<char>, JsonTree)> {
    match request.text_at(member) {
        Some(text) => seq![(input, JsonTree::Text(text))],
        None => Seq::empty(),
    }
}

/// What the request sets in the inputs of the node, if the node takes anything.
pub open spec fn settings_of(node: JsonTree, request: JsonTree, drawn: u64) -> Option<
    Seq<(Seq<char>, JsonTree)>,
> {
    match kind_of_tree(node) {
        NodeKind::Seed => Some(seq![("seed"@, JsonTree::Integer(seed_of(request, drawn)))]),
        NodeKind::Size => Some(size_settings(request)),
        NodeKind::Prompt => match prompt_role(node) {
            PromptRole::Positive => Some(
                text_setting(request, "prompt"@, prompt_key(node.text_at("class_type"@)->0)),
            ),
            PromptRole::Negative => Some(text_setting(request, "negative_prompt"@, "text"@)),
            PromptRole::Neither => None,
        },
        NodeKind::Other => None,
    }
}

fn size_settings_of(request: &Json) -> (settings: Vec<(String, Json)>)
    ensures
        entries(settings@) == size_settings(request.tree()),
{
    let mut settings: Vec<(String, Json)> = Vec::new();
    if let Some(size) = request.text_at("size") {
        let (width, height) = parse_size(size);
        settings.push(("width".to_owned(), Json::Integer(width)));
        settings.push(("height".to_owned(), Json::Integer(height)));
    }
    if let Some(copies) = request.integer_at("n") {
        settings.push(("batch_size".to_owned(), Json::Integer(copies)));
    }
    assert(entries(settings@) =~= size_settings(request.tree()));
    settings
}

fn text_setting_of(request: &Json, member: &str, input: &str) -> (settings: Vec<(String, Json)>)
    ensures
        entries(settings@) == text_setting(request.tree(), member@, input@),
{
    let mut settings: Vec<(String, Json)> = Vec::new();
    if let Some(text) = request.text_at(member) {
        settings.push((input.to_owned(), Json::Text(text.to_owned())));
    }
    assert(entries(settings@) =~= text_setting(request.tree(), member@, input@));
    settings
}

fn settings_of_node(node: &Json, request: &Json, drawn: u64) -> (settings: Option<
    Vec<(String, Json)>,
>)
    requires
        drawn < SEED_BOUND,
    ensures
        match settings {
            Some(settings) => settings_of(node.tree(), request.tree(), drawn) == Some(
                entries(settings@),
            ),
            None => settings_of(node.tree(), request.tree(), drawn) is None,
        },
{
    match kind_of_node(node) {
        NodeKind::Seed => {
            let seed = match request.integer_at("seed") {
                Some(seed) => seed,
                None => drawn as i64,
            };
            let mut settings: Vec<(String, Json)> = Vec::new();
            settings.push(("seed".to_owned(), Json::Integer(seed)));
            assert(entries(settings@) =~= seq![
                ("seed"@, JsonTree::Integer(seed_of(request.tree(), drawn))),
            ]);
            Some(settings)
        },
        NodeKind::Size => Some(size_settings_of(request)),
        NodeKind::Prompt => match role_of_node(node) {
            PromptRole::Positive => {
                let by_line = match node.text_at("class_type") {
                    Some(class) => same(class, "easy promptLine"),
                    None => false,
                };
                let input = if by_line {
                    "prompt"
                } else {
                    "text"
                };
                Some(text_setting_of(request, "prompt", input))
            },
            PromptRole::Negative => Some(text_setting_of(request, "negative_prompt", "text")),
            PromptRole::Neither => None,
        },
        NodeKind::Other => None,
    }
}

/// The members with every setting made, the first one first.
pub open spec fn with_settings(
    members: Seq<(Seq<char>, JsonTree)>,
    settings: Seq<(Seq<char>, JsonTree)>,
) -> Seq<(Seq<char>, JsonTree)>
    decreases settings.len(),
{
    if settings.len() == 0 {
        members
    } else {
        with_member(
            with_settings(members, settings.drop_last()),
            settings.last().0,
            settings.last().1,
        )
    }
}

/// The node with the settings made in its inputs. A node without inputs gets null ones, and
/// inputs that are no object stay as they are.
pub open spec fn with_inputs(node: JsonTree, settings: Seq<(Seq<char>, JsonTree)>) -> JsonTree {
    match node {
        JsonTree::Object(members) => match lookup(members, "inputs"@) {
            None => JsonTree::Object(with_member(members, "inputs"@, JsonTree::Null)),
            Some(JsonTree::Object(inputs)) => JsonTree::Object(
                with_member(
                    members,
                    "inputs"@,
                    JsonTree::Object(with_settings(inputs, settings)),
                ),
            ),
            Some(_) => node,
        },
        _ => node,
    }
}

/// The node with the parameters of the request in it.
pub open spec fn injected(node: JsonTree, request: JsonTree, drawn: u64) -> JsonTree {
    match settings_of(node, request, drawn) {
        Some(settings) => with_inputs(node, settings),
        None => node,
    }
}

fn make_settings(members: &JsonObject, settings: Vec<(String, Json)>) -> (set: JsonObject)
    ensures
        set.entries() == with_settings(members.entries(), entries(settings@)),
{
    let ghost all = entries(settings@);
    let mut set = members.clone();
    for (key, value) in iter: settings
        invariant
            iter.seq() == settings@,
            all == entries(settings@),
            set.entries() == with_settings(members.entries(), all.take(iter.index())),
    {
        assert(all.take(iter.index() + 1).drop_last() =~= all.take(iter.index()));
        assert(all[iter.index()] == (key@, value.tree()));
        set = set.with(key.as_str(), value);
    }
    assert(all.take(all.len() as int) =~= all);
    set
}

/// Puts the parameters of the request into one node of a workflow. `drawn` is the seed where
/// the request has none.
pub fn inject_node(node: &Json, request: &Json, drawn: u64) -> (result: Json)
    requires
        drawn < SEED_BOUND,
    ensures
        result.tree() == injected(node.tree(), request.tree(), drawn),
{
    let settings = match settings_of_node(node, request, drawn) {
        Some(settings) => settings,
        None => return node.clone(),
    };
    let members = match node.as_object() {
        Some(members) => members,
        None => return node.clone(),
    };
    match members.get("inputs") {
        None => Json::Object(members.clone().with("inputs", Json::Null)),
        Some(inputs) => match inputs.as_object() {
            Some(inputs) => Json::Object(
                members.clone().with("inputs", Json::Object(make_settings(inputs, settings))),
            ),
            None => node.clone(),
        },
    }
}

/// One of the nodes is to take the prompt, and the request has none.
pub open spec fn some_lacks_prompt(nodes: Seq<(Seq<char>, JsonTree)>, request: JsonTree) -> bool {
    exists|i: int| 0 <= i < nodes.len() && lacks_prompt((#[trigger] nodes[i]).1, request)
}

/// The nodes with the parameters of the request in them. Each node has a seed of its own drawn
/// for it.
pub open spec fn injected_nodes(
    nodes: Seq<(Seq<char>, JsonTree)>,
    request: JsonTree,
    drawn: Seq<u64>,
) -> Seq<(Seq<char>, JsonTree)> {
    Seq::new(nodes.len(), |i: int| (nodes[i].0, injected(nodes[i].1, request, drawn[i])))
}

/// Every seed is below the bound.
pub open spec fn in_bound(drawn: Seq<u64>) -> bool {
    forall|i: int| 0 <= i < drawn.len() ==> #[trigger] drawn[i] < SEED_BOUND
}

pub(crate) fn any_lacks_prompt(nodes: &JsonObject, request: &Json) -> (lacking: bool)
    ensures
        lacking == some_lacks_prompt(nodes.entries(), request.tree()),
{
    let ghost all = nodes.entries();
    let members = nodes.members();
    let mut i: usize = 0;
    while i < members.len()
        invariant
            i <= members.len(),
            all == nodes.entries(),
            all == entries(members@),
            forall|k: int|
                0 <= k < i ==> !lacks_prompt((#[trigger] all[k]).1, request.tree()),
        decreases members.len() - i,
    {
        assert(all[i as int].1 == members@[i as int].1.tree());
        if node_lacks_prompt(&members[i].1, request) {
            return true;
        }
        i = i + 1;
    }
    false
}

/// Puts the parameters of the request into the nodes of a workflow.
pub(crate) fn inject_nodes(nodes: &JsonObject, request: &Json, drawn: &Vec<u64>) -> (result:
    JsonObject)
    requires
        drawn@.len() == nodes.entries().len(),
        in_bound(drawn@),
    ensures
        result.entries() == injected_nodes(nodes.entries(), request.tree(), drawn@),
{
    let ghost all = nodes.entries();
    let members = nodes.members();
    let mut result: Vec<(String, Json)> = Vec::new();
    let mut i: usize = 0;
    while i < members.len()
        invariant
            i <= members.len(),
            all == entries(members@),
            drawn@.len() == members@.len(),
            in_bound(drawn@),
            result@.len() == i,
            forall|k: int|
                0 <= k < i ==> result@[k].0@ == members@[k].0@ && result@[k].1.tree() == injected(
                    members@[k].1.tree(),
                    request.tree(),
                    drawn@[k],
                ),
        decreases members.len() - i,
    {
        result.push((members[i].0.clone(), inject_node(&members[i].1, request, drawn[i])));
        i = i + 1;
    }
    proof {
        let shown = injected_nodes(all, request.tree(), drawn@);
        assert(entries(result@) =~= shown);
        assert forall|a: int, b: int| 0 <= a < b < shown.len() implies crate::text::precedes(
            (#[trigger] shown[a]).0,
            (#[trigger] shown[b]).0,
        ) by {
            assert(shown[a].0 == all[a].0 && shown[b].0 == all[b].0);
        }
    }
    JsonObject::of_members(result)
}

/// A node that takes nothing stays as it is.
pub proof fn other_nodes_stay(node: JsonTree, request: JsonTree, drawn: u64)
    requires
        kind_of_tree(node) == NodeKind::Other || (kind_of_tree(node) == NodeKind::Prompt
            && prompt_role(node) == PromptRole::Neither),
    ensures
        injected(node, request, drawn) == node,
{
}

/// Of a node nothing changes but its inputs.
pub proof fn only_inputs_change(node: JsonTree, request: JsonTree, drawn: u64, key: Seq<char>)
    requires
        key != "inputs"@,
    ensures
        injected(node, request, drawn).get(key) == node.get(key),
{
    if let (Some(settings), JsonTree::Object(members)) = (
        settings_of(node, request, drawn),
        node,
    ) {
        setting_leaves_other_keys(members, "inputs"@, JsonTree::Null, key);
        if let Some(JsonTree::Object(inputs)) = lookup(members, "inputs"@) {
            setting_leaves_other_keys(
                members,
                "inputs"@,
                JsonTree::Object(with_settings(inputs, settings)),
                key,
            );
        }
    }
}

/// The inputs of a node that has some are the ones it had with the settings made.
pub proof fn inputs_have_settings(node: JsonTree, settings: Seq<(Seq<char>, JsonTree)>)
    requires
        node.at("inputs"@) is Object,
    ensures
        with_inputs(node, settings).at("inputs"@) == JsonTree::Object(
            with_settings(node.at("inputs"@)->Object_0, settings),
        ),
{
    let members = node->Object_0;
    let inputs = node.at("inputs"@)->Object_0;
    lookup_gives_what_was_set(
        members,
        "inputs"@,
        JsonTree::Object(with_settings(inputs, settings)),
    );
}

/// Making settings leaves every key that none of them names as it was.
proof fn settings_leave_other_keys(
    members: Seq<(Seq<char>, JsonTree)>,
    settings: Seq<(Seq<char>, JsonTree)>,
    key: Seq<char>,
)
    requires
        forall|i: int| 0 <= i < settings.len() ==> (#[trigger] settings[i]).0 != key,
    ensures
        lookup(with_settings(members, settings), key) == lookup(members, key),
    decreases settings.len(),
{
    if settings.len() > 0 {
        let front = settings.drop_last();
        assert(settings.last().0 != key);
        assert forall|i: int| 0 <= i < front.len() implies (#[trigger] front[i]).0 != key by {
            assert(front[i] == settings[i]);
        }
        settings_leave_other_keys(members, front, key);
        setting_leaves_other_keys(
            with_settings(members, front),
            settings.last().0,
            settings.last().1,
            key,
        );
    }
}

/// A setting that no later one overrides is what its key then holds.
proof fn setting_arrives(
    members: Seq<(Seq<char>, JsonTree)>,
    settings: Seq<(Seq<char>, JsonTree)>,
    at: int,
)
    requires
        0 <= at < settings.len(),
        forall|i: int| at < i < settings.len() ==> (#[trigger] settings[i]).0 != settings[at].0,
    ensures
        lookup(with_settings(members, settings), settings[at].0) == Some(settings[at].1),
    decreases settings.len(),
{
    let front = settings.drop_last();
    let before = with_settings(members, front);
    if at == settings.len() - 1 {
        lookup_gives_what_was_set(before, settings.last().0, settings.last().1);
    } else {
        assert(front[at] == settings[at]);
        assert forall|i: int| at < i < front.len() implies (#[trigger] front[i]).0
            != front[at].0 by {
            assert(front[i] == settings[i]);
        }
        setting_arrives(members, front, at);
        assert(settings[settings.len() - 1].0 != settings[at].0);
        setting_leaves_other_keys(before, settings.last().0, settings.last().1, settings[at].0);
    }
}

/// An input that no parameter of the request is meant for stays as it was.
pub proof fn other_inputs_stay(node: JsonTree, request: JsonTree, drawn: u64, key: Seq<char>)
    requires
        settings_of(node, request, drawn) matches Some(settings) ==> forall|i: int|
            0 <= i < settings.len() ==> (#[trigger] settings[i]).0 != key,
    ensures
        injected(node, request, drawn).at("inputs"@).get(key) == node.at("inputs"@).get(key),
{
    if let Some(settings) = settings_of(node, request, drawn) {
        if node.at("inputs"@) is Object {
            inputs_have_settings(node, settings);
            settings_leave_other_keys(node.at("inputs"@)->Object_0, settings, key);
        } else if let JsonTree::Object(members) = node {
            lookup_gives_what_was_set(members, "inputs"@, JsonTree::Null);
        }
    }
}

/// A seed node runs with the seed of the request, and with the drawn one where the request has
/// none.
pub proof fn seed_arrives(node: JsonTree, request: JsonTree, drawn: u64)
    requires
        kind_of_tree(node) == NodeKind::Seed,
        node.at("inputs"@) is Object,
    ensures
        injected(node, request, drawn).at("inputs"@).integer_at("seed"@) == Some(
            match request.integer_at("seed"@) {
                Some(seed) => seed,
                None => drawn as i64,
            },
        ),
{
    let settings = settings_of(node, request, drawn)->0;
    inputs_have_settings(node, settings);
    setting_arrives(node.at("inputs"@)->Object_0, settings, 0);
}

/// With a seed in the request what was drawn makes no difference.
pub proof fn requested_seed_decides(node: JsonTree, request: JsonTree, one: u64, other: u64)
    requires
        request.integer_at("seed"@) is Some,
    ensures
        injected(node, request, one) == injected(node, request, other),
{
}

proof fn size_keys_differ()
    ensures
        "width"@ != "height"@,
        "width"@ != "batch_size"@,
        "height"@ != "batch_size"@,
{
    reveal_strlit("width");
    reveal_strlit("height");
    reveal_strlit("batch_size");
    assert("width"@[0] == 'w' && "height"@[0] == 'h' && "batch_size"@[0] == 'b');
}

/// A size node gets the width and the height of the request's size, and the number of images of
/// the request; each of them that the request lacks stays as the workflow has it.
pub proof fn size_and_number_arrive(node: JsonTree, request: JsonTree, drawn: u64)
    requires
        kind_of_tree(node) == NodeKind::Size,
        node.at("inputs"@) is Object,
    ensures
        ({
            let before = node.at("inputs"@);
            let after = injected(node, request, drawn).at("inputs"@);
            &&& request.text_at("size"@) matches Some(size) ==> after.integer_at("width"@) == Some(
                width_of(size),
            ) && after.integer_at("height"@) == Some(height_of(size))
            &&& request.text_at("size"@) is None ==> after.get("width"@) == before.get("width"@)
                && after.get("height"@) == before.get("height"@)
            &&& request.integer_at("n"@) matches Some(copies) ==> after.integer_at("batch_size"@)
                == Some(copies)
            &&& request.integer_at("n"@) is None ==> after.get("batch_size"@) == before.get(
                "batch_size"@,
            )
        }),
{
    size_keys_differ();
    let settings = size_settings(request);
    let inputs = node.at("inputs"@)->Object_0;
    inputs_have_settings(node, settings);
    if request.text_at("size"@) is Some {
        assert(settings[0].0 == "width"@ && settings[1].0 == "height"@);
        setting_arrives(inputs, settings, 0);
        setting_arrives(inputs, settings, 1);
    } else {
        settings_leave_other_keys(inputs, settings, "width"@);
        settings_leave_other_keys(inputs, settings, "height"@);
    }
    if request.integer_at("n"@) is Some {
        assert(settings.last().0 == "batch_size"@);
        setting_arrives(inputs, settings, settings.len() - 1);
    } else {
        settings_leave_other_keys(inputs, settings, "batch_size"@);
    }
}

/// The prompt of the request becomes the text of a node for it, or the line of a node that takes
/// lines.
pub proof fn prompt_arrives(node: JsonTree, request: JsonTree, drawn: u64)
    requires
        kind_of_tree(node) == NodeKind::Prompt,
        prompt_role(node) == PromptRole::Positive,
        node.at("inputs"@) is Object,
        request.text_at("prompt"@) is Some,
    ensures
        injected(node, request, drawn).at("inputs"@).text_at(
            prompt_key(node.text_at("class_type"@)->0),
        ) == request.text_at("prompt"@),
{
    let settings = settings_of(node, request, drawn)->0;
    inputs_have_settings(node, settings);
    setting_arrives(node.at("inputs"@)->Object_0, settings, 0);
}

/// The negative prompt of the request becomes the text of a node for it. Without one the node
/// keeps the inputs that the workflow gives it.
pub proof fn negative_prompt_arrives(node: JsonTree, request: JsonTree, drawn: u64)
    requires
        kind_of_tree(node) == NodeKind::Prompt,
        prompt_role(node) == PromptRole::Negative,
        node.at("inputs"@) is Object,
    ensures
        match request.text_at("negative_prompt"@) {
            Some(text) => injected(node, request, drawn).at("inputs"@).text_at("text"@) == Some(
                text,
            ),
            None => injected(node, request, drawn).at("inputs"@) == node.at("inputs"@),
        },
{
    let settings = settings_of(node, request, drawn)->0;
    inputs_have_settings(node, settings);
    if request.text_at("negative_prompt"@) is Some {
        setting_arrives(node.at("inputs"@)->Object_0, settings, 0);
    }
}

/// A size written as a width, an `x` and a height asks for that width and that height.
pub proof fn size_reads_as_written(width: nat, height: nat)
    requires
        width <= i64::MAX,
        height <= i64::MAX,
    ensures
        width_of(decimal(width) + seq!['x'] + decimal(height)) == width,
        height_of(decimal(width) + seq!['x'] + decimal(height)) == height,
{
    decimal_reads_back(width);
    decimal_reads_back(height);
    integer_of_decimal(width);
    integer_of_decimal(height);
    pieces_of_two(decimal(width), decimal(height), 'x');
}

/// Whatever stands around the mark of a prompt node in its title, the node takes the prompt.
pub proof fn marked_title_takes_the_prompt(
    class: Seq<char>,
    before: Seq<char>,
    mark: Seq<char>,
    after: Seq<char>,
)
    requires
        mark == "Positive Prompt"@ || mark == "CLIP文本编码"@ || mark == "提示词行"@,
    ensures
        role_of_title(class, before + mark + after) == PromptRole::Positive,
{
    let title = before + mark + after;
    let at = before.len() as int;
    assert(title.subrange(at, at + mark.len()) =~= mark);
}

/// Whatever stands around the mark of a negative prompt node in the title of a `CLIPTextEncode`
/// node, the node takes the negative prompt, unless the title is also that of a prompt node.
pub proof fn marked_title_takes_the_negative_prompt(
    before: Seq<char>,
    mark: Seq<char>,
    after: Seq<char>,
)
    requires
        mark == "Negative Prompt"@ || mark == "条件零化"@,
        !is_positive_title(before + mark + after),
    ensures
        role_of_title("CLIPTextEncode"@, before + mark + after) == PromptRole::Negative,
{
    let title = before + mark + after;
    let at = before.len() as int;
    assert(title.subrange(at, at + mark.len()) =~= mark);
}

/// In an object in ascending order, setting a member to what it is changes nothing.
proof fn setting_the_same_changes_nothing(
    members: Seq<(Seq<char>, JsonTree)>,
    key: Seq<char>,
    value: JsonTree,
)
    requires
        ascending(members),
        lookup(members, key) == Some(value),
    ensures
        with_member(members, key, value) == members,
{
    member_stands_at_its_rank(members, key);
    assert(with_member(members, key, value) =~= members);
}

/// Making settings that are already made changes nothing.
proof fn making_the_same_settings_changes_nothing(
    members: Seq<(Seq<char>, JsonTree)>,
    settings: Seq<(Seq<char>, JsonTree)>,
)
    requires
        ascending(members),
        forall|i: int|
            0 <= i < settings.len() ==> lookup(members, (#[trigger] settings[i]).0) == Some(
                settings[i].1,
            ),
    ensures
        with_settings(members, settings) == members,
    decreases settings.len(),
{
    if settings.len() > 0 {
        let front = settings.drop_last();
        assert forall|i: int| 0 <= i < front.len() implies lookup(
            members,
            (#[trigger] front[i]).0,
        ) == Some(front[i].1) by {
            assert(front[i] == settings[i]);
        }
        making_the_same_settings_changes_nothing(members, front);
        assert(lookup(members, settings[settings.len() - 1].0) == Some(settings.last().1));
        setting_the_same_changes_nothing(members, settings.last().0, settings.last().1);
    }
}

/// Making settings keeps the keys in ascending order.
proof fn settings_keep_ascending(
    members: Seq<(Seq<char>, JsonTree)>,
    settings: Seq<(Seq<char>, JsonTree)>,
)
    requires
        ascending(members),
    ensures
        ascending(with_settings(members, settings)),
    decreases settings.len(),
{
    if settings.len() > 0 {
        settings_keep_ascending(members, settings.drop_last());
        with_member_keeps_ascending(
            with_settings(members, settings.drop_last()),
            settings.last().0,
            settings.last().1,
        );
    }
}

/// What is set in the inputs of a node does not depend on its inputs, and no key is set twice.
proof fn settings_of_injected(node: JsonTree, request: JsonTree, drawn: u64)
    ensures
        settings_of(injected(node, request, drawn), request, drawn) == settings_of(
            node,
            request,
            drawn,
        ),
        settings_of(node, request, drawn) matches Some(settings) ==> forall|i: int, j: int|
            0 <= i < j < settings.len() ==> (#[trigger] settings[i]).0 != (
            #[trigger] settings[j]).0,
{
    reveal_strlit("inputs");
    reveal_strlit("class_type");
    reveal_strlit("_meta");
    assert("inputs"@[0] == 'i' && "class_type"@[0] == 'c' && "_meta"@[0] == '_');
    only_inputs_change(node, request, drawn, "class_type"@);
    only_inputs_change(node, request, drawn, "_meta"@);
    size_keys_differ();
}

/// Putting the parameters of a request into a node that already has them changes nothing.
pub proof fn injecting_again_changes_nothing(node: JsonTree, request: JsonTree, drawn: u64)
    requires
        node matches JsonTree::Object(members) ==> ascending(members),
        node.at("inputs"@) matches JsonTree::Object(inputs) ==> ascending(inputs),
    ensures
        injected(injected(node, request, drawn), request, drawn) == injected(node, request, drawn),
{
    settings_of_injected(node, request, drawn);
    if let (Some(settings), JsonTree::Object(members)) = (
        settings_of(node, request, drawn),
        node,
    ) {
        match lookup(members, "inputs"@) {
            None => {
                lookup_gives_what_was_set(members, "inputs"@, JsonTree::Null);
            },
            Some(JsonTree::Object(inputs)) => {
                let made = with_settings(inputs, settings);
                let once = with_member(members, "inputs"@, JsonTree::Object(made));
                lookup_gives_what_was_set(members, "inputs"@, JsonTree::Object(made));
                with_member_keeps_ascending(members, "inputs"@, JsonTree::Object(made));
                settings_keep_ascending(inputs, settings);
                assert forall|i: int| 0 <= i < settings.len() implies lookup(
                    made,
                    (#[trigger] settings[i]).0,
                ) == Some(settings[i].1) by {
                    setting_arrives(inputs, settings, i);
                }
                making_the_same_settings_changes_nothing(made, settings);
                setting_the_same_changes_nothing(once, "inputs"@, JsonTree::Object(made));
            },
            Some(_) => {},
        }
    }
}

} // verus!
