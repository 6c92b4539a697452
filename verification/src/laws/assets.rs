//! Which files a job produced, and what the client gets for them.
use crate::assets::{
    address_view, answer_tree, asset_file, entry_of, entry_of_text, file_views, files_in,
    files_of_outputs, files_under, files_view, listed_files, mime_of, query_view, view_address,
    view_pairs, FileView, ImageFile, MediaKind,
};
use crate::encoding::{base64_text, form_encoded, form_pair, pair_views};
use crate::error::{ErrorView, ProxyError};
use crate::json::JsonTree;
use vstd::prelude::*;

verus! {

/// Where the history has an entry of the job with outputs, the files are those of all the outputs,
/// whatever else the entry holds.
pub proof fn the_outputs_of_the_entry_are_listed(
    history: JsonTree,
    prompt_id: Seq<char>,
    outputs: Seq<(Seq<char>, JsonTree)>,
    kind: MediaKind,
)
    requires
        history.at(prompt_id).at("outputs"@) == JsonTree::Object(outputs),
    ensures
        listed_files(history, prompt_id, kind) == Ok::<Seq<FileView>, ErrorView>(
            files_of_outputs(outputs, kind),
        ),
{
}

/// Where the history has an entry of the job without outputs, there are no files. Without an entry
/// an image job fails and a video job has no files.
pub proof fn without_outputs_there_are_no_files(history: JsonTree, prompt_id: Seq<char>)
    ensures
        history.at(prompt_id) is Object && !(history.at(prompt_id).at("outputs"@) is Object)
            ==> listed_files(history, prompt_id, MediaKind::Image) == Ok::<
            Seq<FileView>,
            ErrorView,
        >(Seq::empty()),
        !(history.at(prompt_id).at("outputs"@) is Object) ==> listed_files(
            history,
            prompt_id,
            MediaKind::Video,
        ) == Ok::<Seq<FileView>, ErrorView>(Seq::empty()),
        !(history.at(prompt_id) is Object) ==> listed_files(history, prompt_id, MediaKind::Image)
            == Err::<Seq<FileView>, ErrorView>(
            ErrorView::Upstream("No prompt_id history found."@),
        ),
{
}

/// No output nodes have no files, and a node more has its files at the end: of an image job its
/// images, of a video job its animations, then its videos, then its images.
pub proof fn nodes_add_their_files(
    outputs: Seq<(Seq<char>, JsonTree)>,
    name: Seq<char>,
    node: JsonTree,
)
    ensures
        files_of_outputs(Seq::empty(), MediaKind::Image).len() == 0,
        files_of_outputs(Seq::empty(), MediaKind::Video).len() == 0,
        files_of_outputs(outputs.push((name, node)), MediaKind::Image) == files_of_outputs(
            outputs,
            MediaKind::Image,
        ) + files_under(node, "images"@, MediaKind::Image),
        files_of_outputs(outputs.push((name, node)), MediaKind::Video) == files_of_outputs(
            outputs,
            MediaKind::Video,
        ) + files_under(node, "gifs"@, MediaKind::Video) + files_under(
            node,
            "videos"@,
            MediaKind::Video,
        ) + files_under(node, "images"@, MediaKind::Video),
{
    assert(outputs.push((name, node)).drop_last() =~= outputs);
    assert(files_of_outputs(outputs.push((name, node)), MediaKind::Video) =~= files_of_outputs(
        outputs,
        MediaKind::Video,
    ) + files_under(node, "gifs"@, MediaKind::Video) + files_under(
        node,
        "videos"@,
        MediaKind::Video,
    ) + files_under(node, "images"@, MediaKind::Video));
}

/// A node lists under a key the files of the assets that it holds there, and none where it holds
/// no array of them.
pub proof fn a_node_lists_what_it_holds(node: JsonTree, key: Seq<char>, kind: MediaKind)
    ensures
        node.at(key) matches JsonTree::Array(assets) ==> files_under(node, key, kind) == files_in(
            assets,
            kind,
        ),
        !(node.at(key) is Array) ==> files_under(node, key, kind).len() == 0,
{
}

/// No assets have no files, and an asset more has its file at the end, if it has one.
pub proof fn assets_add_their_files(assets: Seq<JsonTree>, asset: JsonTree, kind: MediaKind)
    ensures
        files_in(Seq::empty(), kind).len() == 0,
        asset_file(asset, kind) matches Some(file) ==> files_in(assets.push(asset), kind)
            == files_in(assets, kind).push(file),
        asset_file(asset, kind) is None ==> files_in(assets.push(asset), kind) == files_in(
            assets,
            kind,
        ),
{
    assert(assets.push(asset).drop_last() =~= assets);
}

/// An asset has a file exactly where it has a name and its type is `output`, or it has no type
/// and the job is one for a video. The file has that name, the asset's subfolder if it names one,
/// and the type `output`.
pub proof fn an_output_has_a_file(asset: JsonTree, kind: MediaKind)
    ensures
        ({
            let is_output = asset.text_at("type"@) == Some("output"@) || (asset.text_at(
                "type"@,
            ) is None && kind == MediaKind::Video);
            &&& is_output ==> (asset.text_at("filename"@) matches Some(filename) ==> (asset_file(
                asset,
                kind,
            ) matches Some(file) && file.filename == filename && file.type_field == "output"@
                && file.subfolder == match asset.text_at("subfolder"@) {
                Some(subfolder) => subfolder,
                None => ""@,
            }))
            &&& !is_output || asset.text_at("filename"@) is None ==> asset_file(
                asset,
                kind,
            ) is None
        }),
{
}

/// A file is asked for by its name, its subfolder and its type.
pub proof fn a_file_is_asked_for_by_what_it_is(base: Seq<char>, file: FileView, kind: MediaKind)
    ensures
        view_address(base, kind, Ok(form_encoded(view_pairs(file)))) == Ok::<
            Seq<char>,
            ErrorView,
        >(
            "http://"@ + base + "/view?"@ + (form_pair(("filename"@, file.filename)) + seq!['&']
                + form_pair(("subfolder"@, file.subfolder)) + seq!['&'] + form_pair(
                ("type"@, file.type_field),
            )),
        ),
{
    let pairs = view_pairs(file);
    assert(pairs.drop_last().drop_last() =~= seq![("filename"@, file.filename)]);
    reveal_with_fuel(form_encoded, 3);
}

/// A query that cannot be encoded is an error that names what was asked for.
pub proof fn a_query_that_cannot_be_encoded_is_an_error(base: Seq<char>, message: Seq<char>)
    ensures
        view_address(base, MediaKind::Image, Err(message)) == Err::<Seq<char>, ErrorView>(
            ErrorView::Json(
                "Failed to serialize "@ + "image"@ + " data query: "@ + message,
            ),
        ),
        view_address(base, MediaKind::Video, Err(message)) == Err::<Seq<char>, ErrorView>(
            ErrorView::Json(
                "Failed to serialize "@ + "video"@ + " data query: "@ + message,
            ),
        ),
{
}

/// The name ends so.
pub open spec fn ends_in(name: Seq<char>, ending: Seq<char>) -> bool {
    name.len() >= ending.len() && name.subrange(
        name.len() - ending.len(),
        name.len() as int,
    ) == ending
}

/// The media type goes by the ending of the name.
pub proof fn media_types_go_by_the_ending(name: Seq<char>)
    ensures
        ends_in(name, ".mp4"@) ==> mime_of(name) == "video/mp4"@,
        ends_in(name, ".webm"@) ==> mime_of(name) == "video/webm"@,
        ends_in(name, ".gif"@) ==> mime_of(name) == "image/gif"@,
        !ends_in(name, ".mp4"@) && !ends_in(name, ".webm"@) && !ends_in(name, ".gif"@) ==> mime_of(
            name,
        ) == "application/octet-stream"@,
{
    reveal_strlit(".mp4");
    reveal_strlit(".webm");
    reveal_strlit(".gif");
    assert(".mp4"@.len() == 4 && ".webm"@.len() == 5 && ".gif"@.len() == 4);
    assert(".mp4"@[3] == '4' && ".webm"@[4] == 'm' && ".gif"@[3] == 'f');
    let n = name.len() as int;
    if ends_in(name, ".mp4"@) {
        assert(name[n - 1] == name.subrange(n - 4, n)[3]);
    }
    if ends_in(name, ".webm"@) {
        assert(name[n - 1] == name.subrange(n - 5, n)[4]);
    }
    if ends_in(name, ".gif"@) {
        assert(name[n - 1] == name.subrange(n - 4, n)[3]);
    }
}

/// An entry holds the content in base64, and of a video job also the media type, and nothing else.
pub proof fn an_entry_holds_the_content(filename: Seq<char>, content: Seq<u8>)
    ensures
        entry_of(filename, MediaKind::Image, content) == JsonTree::Object(
            seq![("b64_json"@, JsonTree::Text(base64_text(content)))],
        ),
        entry_of(filename, MediaKind::Video, content) == JsonTree::Object(
            seq![
                ("b64_json"@, JsonTree::Text(base64_text(content))),
                ("mime_type"@, JsonTree::Text(mime_of(filename))),
            ],
        ),
{
}

/// An entry is the same however its base64 text was come by.
pub proof fn an_entry_goes_by_its_text(filename: Seq<char>, kind: MediaKind, content: Seq<u8>)
    ensures
        entry_of_text(filename, kind, base64_text(content)) == entry_of(filename, kind, content),
{
}

/// The answer holds when it was made and the entries, and nothing else.
pub proof fn the_answer_holds_the_entries(data: Seq<JsonTree>, created: i64)
    ensures
        answer_tree(data, created) == JsonTree::Object(
            seq![("created"@, JsonTree::Integer(created)), ("data"@, JsonTree::Array(data))],
        ),
{
}

/// Files, addresses, queries and pairs are seen as what they hold, in their order.
pub proof fn files_are_seen_as_they_are(
    file: ImageFile,
    files: Vec<ImageFile>,
    text: String,
    error: ProxyError,
    pairs: Seq<(&str, &str)>,
    at: int,
)
    ensures
        file@.filename == file.filename@,
        file@.subfolder == file.subfolder@,
        file@.type_field == file.type_field@,
        file_views(files@).len() == files@.len(),
        0 <= at < files@.len() ==> file_views(files@)[at] == files@[at]@,
        files_view(Ok(files)) == Ok::<Seq<FileView>, ErrorView>(file_views(files@)),
        files_view(Err(error)) == Err::<Seq<FileView>, ErrorView>(error@),
        address_view(Ok(text)) == Ok::<Seq<char>, ErrorView>(text@),
        address_view(Err(error)) == Err::<Seq<char>, ErrorView>(error@),
        query_view(Ok(text)) == Ok::<Seq<char>, Seq<char>>(text@),
        query_view(Err(text)) == Err::<Seq<char>, Seq<char>>(text@),
        pair_views(pairs).len() == pairs.len(),
        0 <= at < pairs.len() ==> pair_views(pairs)[at] == (pairs[at].0@, pairs[at].1@),
{
}

} // verus!
