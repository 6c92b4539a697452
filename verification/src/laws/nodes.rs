//! Which nodes of a workflow a request changes, and to what.
use crate::json::{lookup_gives_what_was_set, JsonTree};
use crate::nodes::{
    height_of, in_bound, injected, injected_nodes, negative_prompt_arrives, only_inputs_change,
    other_inputs_stay, prompt_arrives, seed_arrives, size_and_number_arrive, width_of,
};
use crate::text::{contains_text, integer_of, split, split_at_the_first_separator};
use vstd::prelude::*;

verus! {

/// The classes that run with a seed.
pub open spec fn runs_with_a_seed(class: Seq<char>) -> bool {
    class == "KSampler"@ || class == "easy seed"@
}

/// The classes that fix the size and the number of images.
pub open spec fn fixes_the_size(class: Seq<char>) -> bool {
    ||| class == "EmptyLatentImage"@
    ||| class == "EmptySD3LatentImage"@
    ||| class == "EmptyFlux2LatentImage"@
    ||| class == "EmptyHunyuanLatentVideo"@
    ||| class == "VHS_VideoCombine"@
}

/// The classes that hold a text.
pub open spec fn holds_a_text(class: Seq<char>) -> bool {
    class == "CLIPTextEncode"@ || class == "CR Text"@ || class == "easy promptLine"@
}

/// The title marks a node that holds the prompt.
pub open spec fn marks_the_prompt(title: Seq<char>) -> bool {
    ||| contains_text(title, "Positive Prompt"@)
    ||| contains_text(title, "CLIP文本编码"@)
    ||| contains_text(title, "提示词行"@)
    ||| title == "🔤 CR Text"@
}

/// The title marks a node of that class that holds the negative prompt.
pub open spec fn marks_the_negative_prompt(class: Seq<char>, title: Seq<char>) -> bool {
    &&& !marks_the_prompt(title)
    &&& if class == "CLIPTextEncode"@ {
        contains_text(title, "Negative Prompt"@) || contains_text(title, "条件零化"@)
    } else {
        title == "Negative Prompt"@ || title == "条件零化"@
    }
}

/// The title of a node.
pub open spec fn title_of(node: JsonTree) -> Option<Seq<char>> {
    node.at("_meta"@).text_at("title"@)
}

/// The node holds the prompt.
pub open spec fn holds_the_prompt(node: JsonTree) -> bool {
    &&& node.text_at("class_type"@) matches Some(class) && holds_a_text(class)
    &&& title_of(node) matches Some(title) && marks_the_prompt(title)
}

/// The node holds the negative prompt.
pub open spec fn holds_the_negative_prompt(node: JsonTree) -> bool {
    node.text_at("class_type"@) matches Some(class) && holds_a_text(class) && (title_of(
        node,
    ) matches Some(title) && marks_the_negative_prompt(class, title))
}

/// The node is one that a request can change.
pub open spec fn is_changeable(node: JsonTree) -> bool {
    ||| node.text_at("class_type"@) matches Some(class) && (runs_with_a_seed(class)
        || fixes_the_size(class))
    ||| holds_the_prompt(node)
    ||| holds_the_negative_prompt(node)
}

/// The keys that parameters are put under differ.
proof fn input_keys_differ()
    ensures
        "seed"@ != "width"@ && "seed"@ != "height"@ && "seed"@ != "batch_size"@ && "seed"@
            != "text"@ && "seed"@ != "prompt"@,
        "text"@ != "width"@ && "text"@ != "height"@ && "text"@ != "batch_size"@ && "text"@
            != "prompt"@,
        "prompt"@ != "width"@ && "prompt"@ != "height"@ && "prompt"@ != "batch_size"@,
        "width"@ != "height"@ && "width"@ != "batch_size"@ && "height"@ != "batch_size"@,
{
    reveal_strlit("seed");
    reveal_strlit("text");
    reveal_strlit("prompt");
    reveal_strlit("width");
    reveal_strlit("height");
    reveal_strlit("batch_size");
    assert("seed"@[0] == 's' && "text"@[0] == 't' && "prompt"@[0] == 'p');
    assert("width"@[0] == 'w' && "height"@[0] == 'h' && "batch_size"@[0] == 'b');
}

/// The classes of nodes differ.
pub proof fn classes_differ(class: Seq<char>)
    ensures
        !(runs_with_a_seed(class) && fixes_the_size(class)),
        !(runs_with_a_seed(class) && holds_a_text(class)),
        !(fixes_the_size(class) && holds_a_text(class)),
{
    reveal_strlit("KSampler");
    reveal_strlit("easy seed");
    reveal_strlit("EmptyLatentImage");
    reveal_strlit("EmptySD3LatentImage");
    reveal_strlit("EmptyFlux2LatentImage");
    reveal_strlit("EmptyHunyuanLatentVideo");
    reveal_strlit("VHS_VideoCombine");
    reveal_strlit("CLIPTextEncode");
    reveal_strlit("CR Text");
    reveal_strlit("easy promptLine");
    assert("KSampler"@[0] == 'K' && "easy seed"@.len() == 9);
    assert("EmptyLatentImage"@[0] == 'E' && "EmptySD3LatentImage"@[0] == 'E');
    assert("EmptyFlux2LatentImage"@[0] == 'E' && "EmptyHunyuanLatentVideo"@[0] == 'E');
    assert("VHS_VideoCombine"@[0] == 'V' && "easy seed"@[0] == 'e');
    assert("CLIPTextEncode"@[0] == 'C' && "CR Text"@[0] == 'C');
    assert("easy promptLine"@[0] == 'e' && "easy promptLine"@.len() == 15);
}

/// A request changes no node but those of the named classes, and of the ones that hold a text
/// only those whose titles mark them.
pub proof fn other_nodes_are_left_alone(node: JsonTree, request: JsonTree, drawn: u64)
    requires
        !is_changeable(node),
    ensures
        injected(node, request, drawn) == node,
{
}

/// A node whose class is none of the named ones is left alone, whatever else it holds.
pub proof fn unnamed_classes_are_left_alone(
    node: JsonTree,
    class: Option<Seq<char>>,
    request: JsonTree,
    drawn: u64,
)
    requires
        node.text_at("class_type"@) == class,
        class != Some("KSampler"@),
        class != Some("easy seed"@),
        class != Some("EmptyLatentImage"@),
        class != Some("EmptySD3LatentImage"@),
        class != Some("EmptyFlux2LatentImage"@),
        class != Some("EmptyHunyuanLatentVideo"@),
        class != Some("VHS_VideoCombine"@),
        class != Some("CLIPTextEncode"@),
        class != Some("CR Text"@),
        class != Some("easy promptLine"@),
    ensures
        injected(node, request, drawn) == node,
{
}

/// The nodes of the five classes that fix the size get width, height and number of images from
/// the request, each where the request has it, and keep every other input.
pub proof fn size_classes_take_the_size(
    node: JsonTree,
    class: Seq<char>,
    request: JsonTree,
    drawn: u64,
    key: Seq<char>,
)
    requires
        node.text_at("class_type"@) == Some(class),
        fixes_the_size(class),
        node.at("inputs"@) is Object,
    ensures
        ({
            let before = node.at("inputs"@);
            let after = injected(node, request, drawn).at("inputs"@);
            let size = request.text_at("size"@);
            let copies = request.integer_at("n"@);
            &&& after is Object
            &&& key == "width"@ ==> after.get(key) == match size {
                Some(size) => Some(JsonTree::Integer(width_of(size))),
                None => before.get(key),
            }
            &&& key == "height"@ ==> after.get(key) == match size {
                Some(size) => Some(JsonTree::Integer(height_of(size))),
                None => before.get(key),
            }
            &&& key == "batch_size"@ ==> after.get(key) == match copies {
                Some(copies) => Some(JsonTree::Integer(copies)),
                None => before.get(key),
            }
            &&& key != "width"@ && key != "height"@ && key != "batch_size"@ ==> after.get(key)
                == before.get(key)
        }),
{
    classes_differ(class);
    input_keys_differ();
    size_and_number_arrive(node, request, drawn);
    inputs_stay_an_object(node, request, drawn);
    if key != "width"@ && key != "height"@ && key != "batch_size"@ {
        other_inputs_stay(node, request, drawn, key);
    }
}

/// Inputs that are an object stay one.
proof fn inputs_stay_an_object(node: JsonTree, request: JsonTree, drawn: u64)
    requires
        node.at("inputs"@) is Object,
    ensures
        injected(node, request, drawn).at("inputs"@) is Object,
{
    if let Some(settings) = crate::nodes::settings_of(node, request, drawn) {
        crate::nodes::inputs_have_settings(node, settings);
    }
}

/// No other class gets a size or a number of images.
pub proof fn no_other_class_takes_the_size(
    node: JsonTree,
    class: Option<Seq<char>>,
    request: JsonTree,
    drawn: u64,
    key: Seq<char>,
)
    requires
        node.text_at("class_type"@) == class,
        class matches Some(class) ==> !fixes_the_size(class),
        key == "width"@ || key == "height"@ || key == "batch_size"@,
    ensures
        injected(node, request, drawn).at("inputs"@).get(key) == node.at("inputs"@).get(key),
{
    input_keys_differ();
    other_inputs_stay(node, request, drawn, key);
}

/// The nodes of the two classes that run with a seed get the seed of the request, or the drawn
/// one, and keep every other input.
pub proof fn seed_classes_take_the_seed(
    node: JsonTree,
    class: Seq<char>,
    request: JsonTree,
    drawn: u64,
    key: Seq<char>,
)
    requires
        node.text_at("class_type"@) == Some(class),
        runs_with_a_seed(class),
        node.at("inputs"@) is Object,
    ensures
        ({
            let before = node.at("inputs"@);
            let after = injected(node, request, drawn).at("inputs"@);
            &&& after is Object
            &&& key == "seed"@ ==> after.integer_at(key) == Some(
                match request.integer_at("seed"@) {
                    Some(seed) => seed,
                    None => drawn as i64,
                },
            )
            &&& key != "seed"@ ==> after.get(key) == before.get(key)
        }),
{
    seed_arrives(node, request, drawn);
    inputs_stay_an_object(node, request, drawn);
    if key != "seed"@ {
        other_inputs_stay(node, request, drawn, key);
    }
}

/// No other class gets a seed.
pub proof fn no_other_class_takes_the_seed(
    node: JsonTree,
    class: Option<Seq<char>>,
    request: JsonTree,
    drawn: u64,
)
    requires
        node.text_at("class_type"@) == class,
        class matches Some(class) ==> !runs_with_a_seed(class),
    ensures
        injected(node, request, drawn).at("inputs"@).get("seed"@) == node.at("inputs"@).get(
            "seed"@,
        ),
{
    input_keys_differ();
    other_inputs_stay(node, request, drawn, "seed"@);
}

/// A node that holds the prompt gets the prompt of the request, an `easy promptLine` as its line
/// and every other one as its text, and keeps every other input.
pub proof fn prompt_nodes_take_the_prompt(
    node: JsonTree,
    request: JsonTree,
    prompt: Seq<char>,
    drawn: u64,
    key: Seq<char>,
)
    requires
        holds_the_prompt(node),
        node.at("inputs"@) is Object,
        request.text_at("prompt"@) == Some(prompt),
    ensures
        ({
            let before = node.at("inputs"@);
            let after = injected(node, request, drawn).at("inputs"@);
            let place = if node.text_at("class_type"@) == Some("easy promptLine"@) {
                "prompt"@
            } else {
                "text"@
            };
            &&& after is Object
            &&& key == place ==> after.text_at(key) == Some(prompt)
            &&& key != place ==> after.get(key) == before.get(key)
        }),
{
    classes_differ(node.text_at("class_type"@)->0);
    prompt_arrives(node, request, drawn);
    inputs_stay_an_object(node, request, drawn);
    let place = if node.text_at("class_type"@) == Some("easy promptLine"@) {
        "prompt"@
    } else {
        "text"@
    };
    if key != place {
        other_inputs_stay(node, request, drawn, key);
    }
}

/// A node that holds the negative prompt gets the negative prompt of the request as its text
/// where there is one, and keeps every other input.
pub proof fn negative_prompt_nodes_take_the_negative_prompt(
    node: JsonTree,
    request: JsonTree,
    drawn: u64,
    key: Seq<char>,
)
    requires
        holds_the_negative_prompt(node),
        node.at("inputs"@) is Object,
    ensures
        ({
            let before = node.at("inputs"@);
            let after = injected(node, request, drawn).at("inputs"@);
            &&& after is Object
            &&& request.text_at("negative_prompt"@) is None ==> after == before
            &&& key == "text"@ ==> (request.text_at("negative_prompt"@) matches Some(text)
                ==> after.text_at(key) == Some(text))
            &&& key != "text"@ ==> after.get(key) == before.get(key)
        }),
{
    classes_differ(node.text_at("class_type"@)->0);
    negative_prompt_arrives(node, request, drawn);
    inputs_stay_an_object(node, request, drawn);
    if key != "text"@ {
        other_inputs_stay(node, request, drawn, key);
    }
}

/// No other node gets a text.
pub proof fn no_other_node_takes_a_text(
    node: JsonTree,
    request: JsonTree,
    drawn: u64,
    key: Seq<char>,
)
    requires
        !holds_the_prompt(node),
        !holds_the_negative_prompt(node),
        key == "text"@ || key == "prompt"@,
    ensures
        injected(node, request, drawn).at("inputs"@).get(key) == node.at("inputs"@).get(key),
{
    input_keys_differ();
    other_inputs_stay(node, request, drawn, key);
}

/// A changeable node without inputs gets null ones and nothing else, and one whose inputs are no
/// object is left alone.
pub proof fn nodes_without_inputs_take_nothing(
    node: JsonTree,
    request: JsonTree,
    drawn: u64,
    key: Seq<char>,
)
    requires
        is_changeable(node),
        !(node.at("inputs"@) is Object),
    ensures
        ({
            let after = injected(node, request, drawn);
            &&& node.get("inputs"@) is Some ==> after == node
            &&& node.get("inputs"@) is None ==> after.get("inputs"@) == Some(JsonTree::Null)
            &&& key != "inputs"@ ==> after.get(key) == node.get(key)
        }),
{
    if key != "inputs"@ {
        only_inputs_change(node, request, drawn, key);
    }
    if let JsonTree::Object(members) = node {
        lookup_gives_what_was_set(members, "inputs"@, JsonTree::Null);
    }
}

/// The nodes of a workflow keep their names and their order, and each of them is changed by
/// itself, with the seed that was drawn for it.
pub proof fn nodes_are_changed_one_by_one(
    nodes: Seq<(Seq<char>, JsonTree)>,
    request: JsonTree,
    drawn: Seq<u64>,
    at: int,
)
    requires
        0 <= at < nodes.len(),
    ensures
        injected_nodes(nodes, request, drawn).len() == nodes.len(),
        injected_nodes(nodes, request, drawn)[at].0 == nodes[at].0,
        injected_nodes(nodes, request, drawn)[at].1 == injected(nodes[at].1, request, drawn[at]),
{
}

/// Seeds are drawn below a thousand million.
pub proof fn drawn_seeds_are_below_a_thousand_million(drawn: Seq<u64>)
    ensures
        in_bound(drawn) <==> forall|i: int| 0 <= i < drawn.len() ==> #[trigger] drawn[i]
            < 1_000_000_000,
{
}

/// The number that a piece of a size stands for.
pub open spec fn size_number(piece: Seq<char>) -> i64 {
    match integer_of(piece) {
        Some(number) => number,
        None => 512,
    }
}

/// The text has no `x` in it.
pub open spec fn has_no_x(text: Seq<char>) -> bool {
    forall|i: int| 0 <= i < text.len() ==> #[trigger] text[i] != 'x'
}

/// A size without an `x` is a width, and the height is then 1024.
pub proof fn size_without_x_is_a_width(size: Seq<char>)
    requires
        has_no_x(size),
    ensures
        width_of(size) == size_number(size),
        height_of(size) == 1024,
{
    split_at_the_first_separator(size, Seq::empty(), 'x');
}

/// What stands before the first `x` of a size is the width, what stands after it is the height,
/// up to the next `x` if there is one; a piece that is no integer stands for 512.
pub proof fn size_is_width_and_height(width: Seq<char>, height: Seq<char>, rest: Seq<char>)
    requires
        has_no_x(width),
        has_no_x(height),
        rest.len() > 0 ==> rest[0] == 'x',
    ensures
        width_of(width + seq!['x'] + (height + rest)) == size_number(width),
        height_of(width + seq!['x'] + (height + rest)) == size_number(height),
{
    let size = width + seq!['x'] + (height + rest);
    split_at_the_first_separator(width, height + rest, 'x');
    if rest.len() == 0 {
        assert(height + rest =~= height);
        split_at_the_first_separator(height, Seq::empty(), 'x');
    } else {
        split_at_the_first_separator(height, rest.drop_first(), 'x');
        assert(height + rest =~= height + seq!['x'] + rest.drop_first());
    }
    assert(split(size, 'x')[0] == width);
    assert(split(size, 'x')[1] == height);
}

} // verus!
