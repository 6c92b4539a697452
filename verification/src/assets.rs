//! What a finished job produced: which files there are, how each is fetched, and how they are
//! handed to the client.
use crate::encoding::{
    base64_text, encodable, encode_base64, encode_form, form_encoded, pair_views,
};
use crate::error::{ErrorView, ProxyError};
use crate::json::{entries, lookup, trees, with_member, Json, JsonObject, JsonTree};
use crate::text::{has_suffix, same};
use vstd::prelude::*;

verus! {

/// What a client asked for.
#[derive(Debug, Clone, Copy, PartialEq, Eq, Structural)]
pub enum MediaKind {
    Image,
    Video,
}

/// A file that the backend produced.
#[derive(Debug, PartialEq, Eq)]
pub struct ImageFile {
    /// Its name in the backend's folder.
    pub filename: String,
    /// The folder below that one.
    pub subfolder: String,
    /// What it is: `output` for a final result.
    pub type_field: String,
}

/// An `ImageFile` as a mathematical object.
pub struct FileView {
    pub filename: Seq<char>,
    pub subfolder: Seq<char>,
    pub type_field: Seq<char>,
}

impl View for ImageFile {
    type V = FileView;

    open spec fn view(&self) -> FileView {
        FileView {
            filename: self.filename@,
            subfolder: self.subfolder@,
            type_field: self.type_field@,
        }
    }
}

/// The files as mathematical objects, in their order.
pub open spec fn file_views(files: Seq<ImageFile>) -> Seq<FileView> {
    Seq::new(files.len(), |i: int| files[i]@)
}

/// The type of an asset. One of a video job that has none is a final result.
pub open spec fn asset_type(asset: JsonTree, kind: MediaKind) -> Option<Seq<char>> {
    match (asset.text_at("type"@), kind) {
        (Some(text), _) => Some(text),
        (None, MediaKind::Video) => Some("output"@),
        (None, MediaKind::Image) => None,
    }
}

/// The file of an asset: there is one where the asset is a final result and has a name.
pub open spec fn asset_file(asset: JsonTree, kind: MediaKind) -> Option<FileView> {
    if asset_type(asset, kind) != Some("output"@) {
        None
    } else {
        match asset.text_at("filename"@) {
            None => None,
            Some(filename) => Some(
                FileView {
                    filename,
                    subfolder: match asset.text_at("subfolder"@) {
                        Some(subfolder) => subfolder,
                        None => ""@,
                    },
                    type_field: "output"@,
                },
            ),
        }
    }
}

/// A sequence with what may be there at its end.
pub open spec fn with_optional<T>(items: Seq<T>, item: Option<T>) -> Seq<T> {
    match item {
        Some(item) => items.push(item),
        None => items,
    }
}

/// The files of the assets, in their order.
pub open spec fn files_in(assets: Seq<JsonTree>, kind: MediaKind) -> Seq<FileView>
    decreases assets.len(),
{
    if assets.len() == 0 {
        Seq::empty()
    } else {
        with_optional(files_in(assets.drop_last(), kind), asset_file(assets.last(), kind))
    }
}

/// The files that an output node lists under that key.
pub open spec fn files_under(node: JsonTree, key: Seq<char>, kind: MediaKind) -> Seq<FileView> {
    match node.at(key) {
        JsonTree::Array(assets) => files_in(assets, kind),
        _ => Seq::empty(),
    }
}

/// The files of an output node: its images, and of a video job its animations and its videos
/// before them.
pub open spec fn files_of_node(node: JsonTree, kind: MediaKind) -> Seq<FileView> {
    match kind {
        MediaKind::Image => files_under(node, "images"@, kind),
        MediaKind::Video => files_under(node, "gifs"@, kind) + files_under(node, "videos"@, kind)
            + files_under(node, "images"@, kind),
    }
}

/// The files of all the output nodes, in the order of the nodes.
pub open spec fn files_of_outputs(
    outputs: Seq<(Seq<char>, JsonTree)>,
    kind: MediaKind,
) -> Seq<FileView>
    decreases outputs.len(),
{
    if outputs.len() == 0 {
        Seq::empty()
    } else {
        files_of_outputs(outputs.drop_last(), kind) + files_of_node(outputs.last().1, kind)
    }
}

/// The files that the history lists for a job. An image job must have an entry there.
pub open spec fn listed_files(history: JsonTree, prompt_id: Seq<char>, kind: MediaKind) -> Result<
    Seq<FileView>,
    ErrorView,
> {
    match history.at(prompt_id) {
        JsonTree::Object(entry) => match lookup(entry, "outputs"@) {
            Some(JsonTree::Object(outputs)) => Ok(files_of_outputs(outputs, kind)),
            _ => Ok(Seq::empty()),
        },
        _ => match kind {
            MediaKind::Image => Err(ErrorView::Upstream("No prompt_id history found."@)),
            MediaKind::Video => Ok(Seq::empty()),
        },
    }
}

fn file_of_asset(asset: &Json, kind: MediaKind) -> (file: Option<ImageFile>)
    ensures
        match file {
            Some(file) => asset_file(asset.tree(), kind) == Some(file@),
            None => asset_file(asset.tree(), kind) is None,
        },
{
    let is_output = match asset.text_at("type") {
        Some(text) => same(text, "output"),
        None => match kind {
            MediaKind::Video => true,
            MediaKind::Image => false,
        },
    };
    if !is_output {
        return None;
    }
    let filename = match asset.text_at("filename") {
        Some(filename) => filename,
        None => return None,
    };
    let subfolder = match asset.text_at("subfolder") {
        Some(subfolder) => subfolder,
        None => "",
    };
    Some(
        ImageFile {
            filename: filename.to_owned(),
            subfolder: subfolder.to_owned(),
            type_field: "output".to_owned(),
        },
    )
}

/// Adds the files that an output node lists under that key.
fn collect_under(node: &Json, key: &str, kind: MediaKind, files: &mut Vec<ImageFile>)
    ensures
        file_views(final(files)@) == file_views(old(files)@) + files_under(node.tree(), key@, kind),
{
    let ghost before = file_views(files@);
    let assets = match node.get(key) {
        Some(value) => value.as_array(),
        None => None,
    };
    let assets = match assets {
        Some(assets) => assets,
        None => {
            assert(file_views(files@) =~= before + files_under(node.tree(), key@, kind));
            return;
        },
    };
    let ghost all = trees(assets@);
    let mut i: usize = 0;
    assert(before + files_in(all.take(0), kind) =~= before);
    while i < assets.len()
        invariant
            i <= assets.len(),
            all == trees(assets@),
            file_views(files@) == before + files_in(all.take(i as int), kind),
        decreases assets.len() - i,
    {
        assert(all.take(i + 1).drop_last() =~= all.take(i as int));
        let ghost so_far = file_views(files@);
        if let Some(file) = file_of_asset(&assets[i], kind) {
            let ghost shown = file@;
            files.push(file);
            assert(file_views(files@) =~= so_far.push(shown));
            assert(so_far.push(shown) =~= before + files_in(all.take(i as int), kind).push(shown));
        }
        i = i + 1;
    }
    assert(all.take(all.len() as int) =~= all);
}

fn collect_of_node(node: &Json, kind: MediaKind, files: &mut Vec<ImageFile>)
    ensures
        file_views(final(files)@) == file_views(old(files)@) + files_of_node(node.tree(), kind),
{
    let ghost before = file_views(files@);
    if kind == MediaKind::Video {
        collect_under(node, "gifs", kind, files);
        collect_under(node, "videos", kind, files);
    }
    collect_under(node, "images", kind, files);
    assert(file_views(files@) =~= before + files_of_node(node.tree(), kind));
}

fn collect_of_outputs(outputs: &JsonObject, kind: MediaKind) -> (files: Vec<ImageFile>)
    ensures
        file_views(files@) == files_of_outputs(outputs.entries(), kind),
{
    let ghost all = outputs.entries();
    let members = outputs.members();
    let mut files: Vec<ImageFile> = Vec::new();
    let mut i: usize = 0;
    assert(file_views(files@) =~= files_of_outputs(all.take(0), kind));
    while i < members.len()
        invariant
            i <= members.len(),
            all == entries(members@),
            file_views(files@) == files_of_outputs(all.take(i as int), kind),
        decreases members.len() - i,
    {
        assert(all.take(i + 1).drop_last() =~= all.take(i as int));
        assert(all.take(i + 1).last().1 == members@[i as int].1.tree());
        collect_of_node(&members[i].1, kind, &mut files);
        i = i + 1;
    }
    assert(all.take(all.len() as int) =~= all);
    files
}

/// A list of files, or why there is none, as a mathematical object.
pub open spec fn files_view(files: Result<Vec<ImageFile>, ProxyError>) -> Result<
    Seq<FileView>,
    ErrorView,
> {
    match files {
        Ok(files) => Ok(file_views(files@)),
        Err(error) => Err(error@),
    }
}

/// The files that a history which was parsed lists for a job.
pub fn list_files(history: &Json, prompt_id: &str, kind: MediaKind) -> (files: Result<
    Vec<ImageFile>,
    ProxyError,
>)
    ensures
        files_view(files) == listed_files(history.tree(), prompt_id@, kind),
{
    let entry = match history.get(prompt_id) {
        Some(value) => value.as_object(),
        None => None,
    };
    let entry = match entry {
        Some(entry) => entry,
        None => return match kind {
            MediaKind::Image => Err(
                ProxyError::Upstream("No prompt_id history found.".to_owned()),
            ),
            MediaKind::Video => {
                let files: Vec<ImageFile> = Vec::new();
                assert(file_views(files@) =~= Seq::empty());
                Ok(files)
            },
        },
    };
    let outputs = match entry.get("outputs") {
        Some(value) => value.as_object(),
        None => None,
    };
    match outputs {
        Some(outputs) => Ok(collect_of_outputs(outputs, kind)),
        None => {
            let files: Vec<ImageFile> = Vec::new();
            assert(file_views(files@) =~= Seq::empty());
            Ok(files)
        },
    }
}

/// What the backend is asked for to get a file.
pub open spec fn view_pairs(file: FileView) -> Seq<(Seq<char>, Seq<char>)> {
    seq![
        ("filename"@, file.filename),
        ("subfolder"@, file.subfolder),
        ("type"@, file.type_field),
    ]
}

/// What the error message calls a file of that kind.
pub open spec fn kind_word(kind: MediaKind) -> Seq<char> {
    match kind {
        MediaKind::Image => "image"@,
        MediaKind::Video => "video"@,
    }
}

/// The address of a file where the query for it came out so.
pub open spec fn view_address(
    base: Seq<char>,
    kind: MediaKind,
    query: Result<Seq<char>, Seq<char>>,
) -> Result<Seq<char>, ErrorView> {
    match query {
        Ok(query) => Ok("http://"@ + base + "/view?"@ + query),
        Err(message) => Err(
            ErrorView::Json(
                "Failed to serialize "@ + kind_word(kind) + " data query: "@ + message,
            ),
        ),
    }
}

/// A text, or why there is none, as a mathematical object.
pub open spec fn address_view(address: Result<String, ProxyError>) -> Result<
    Seq<char>,
    ErrorView,
> {
    match address {
        Ok(address) => Ok(address@),
        Err(error) => Err(error@),
    }
}

/// The outcome of an encoding as a mathematical object.
pub open spec fn query_view(query: Result<String, String>) -> Result<Seq<char>, Seq<char>> {
    match query {
        Ok(query) => Ok(query@),
        Err(message) => Err(message@),
    }
}

/// The address of a file, from the outcome of encoding the query for it.
pub fn address_of_query(base: &str, kind: MediaKind, query: Result<String, String>) -> (address:
    Result<String, ProxyError>)
    ensures
        address_view(address) == view_address(base@, kind, query_view(query)),
{
    match query {
        Ok(query) => Ok(
            "http://".to_owned().concat(base).concat("/view?").concat(query.as_str()),
        ),
        Err(message) => {
            let word = match kind {
                MediaKind::Image => "image",
                MediaKind::Video => "video",
            };
            let text = "Failed to serialize ".to_owned().concat(word).concat(
                " data query: ",
            ).concat(message.as_str());
            Err(ProxyError::Json(text))
        },
    }
}

/// The address of a file at the backend.
pub fn view_url(base: &str, kind: MediaKind, file: &ImageFile) -> (address: Result<
    String,
    ProxyError,
>)
    ensures
        address is Ok,
        address_view(address) == view_address(
            base@,
            kind,
            Ok(form_encoded(view_pairs(file@))),
        ),
{
    let mut pairs: Vec<(&str, &str)> = Vec::new();
    pairs.push(("filename", file.filename.as_str()));
    pairs.push(("subfolder", file.subfolder.as_str()));
    pairs.push(("type", file.type_field.as_str()));
    assert(pair_views(pairs@) =~= view_pairs(file@));
    address_of_query(base, kind, encode_form(&pairs))
}

/// The media type of a file of a video job, by the ending of its name.
pub open spec fn mime_of(filename: Seq<char>) -> Seq<char> {
    if ".mp4"@.is_suffix_of(filename) {
        "video/mp4"@
    } else if ".webm"@.is_suffix_of(filename) {
        "video/webm"@
    } else if ".gif"@.is_suffix_of(filename) {
        "image/gif"@
    } else {
        "application/octet-stream"@
    }
}

/// The media type of a file of a video job, by the ending of its name.
pub fn mime_type(filename: &str) -> (mime: &'static str)
    ensures
        mime@ == mime_of(filename@),
{
    if has_suffix(filename, ".mp4") {
        "video/mp4"
    } else if has_suffix(filename, ".webm") {
        "video/webm"
    } else if has_suffix(filename, ".gif") {
        "image/gif"
    } else {
        "application/octet-stream"
    }
}

/// What the client gets for a file whose content reads so in base64.
pub open spec fn entry_of_text(filename: Seq<char>, kind: MediaKind, text: Seq<char>) -> JsonTree {
    match kind {
        MediaKind::Image => JsonTree::Object(seq![("b64_json"@, JsonTree::Text(text))]),
        MediaKind::Video => JsonTree::Object(
            seq![
                ("b64_json"@, JsonTree::Text(text)),
                ("mime_type"@, JsonTree::Text(mime_of(filename))),
            ],
        ),
    }
}

/// What the client gets for a file with that content.
pub open spec fn entry_of(filename: Seq<char>, kind: MediaKind, content: Seq<u8>) -> JsonTree {
    entry_of_text(filename, kind, base64_text(content))
}

/// What the client gets for a file, from its content in base64.
pub fn entry_with_text(filename: &str, kind: MediaKind, text: String) -> (entry: Json)
    ensures
        entry.tree() == entry_of_text(filename@, kind, text@),
{
    let ghost encoded = JsonTree::Text(text@);
    let object = JsonObject::new().with("b64_json", Json::Text(text));
    assert(object.entries() =~= seq![("b64_json"@, encoded)]);
    match kind {
        MediaKind::Image => Json::Object(object),
        MediaKind::Video => {
            let object = object.with("mime_type", Json::Text(mime_type(filename).to_owned()));
            proof {
                reveal_strlit("b64_json");
                reveal_strlit("mime_type");
                assert("b64_json"@[0] == 'b' && "mime_type"@[0] == 'm');
                reveal_with_fuel(crate::json::rank, 2);
                assert(object.entries() =~= seq![
                    ("b64_json"@, encoded),
                    ("mime_type"@, JsonTree::Text(mime_of(filename@))),
                ]);
            }
            Json::Object(object)
        },
    }
}

/// What the client gets for a file with that content.
pub fn encode_asset(filename: &str, kind: MediaKind, content: &Vec<u8>) -> (entry: Json)
    requires
        encodable(content@.len()),
    ensures
        entry.tree() == entry_of(filename@, kind, content@),
{
    entry_with_text(filename, kind, encode_base64(content))
}

/// The answer to the client: the files, and when they were made.
pub open spec fn answer_tree(data: Seq<JsonTree>, created: i64) -> JsonTree {
    JsonTree::Object(
        seq![("created"@, JsonTree::Integer(created)), ("data"@, JsonTree::Array(data))],
    )
}

/// The answer to the client.
pub fn answer(data: Vec<Json>, created: i64) -> (json: Json)
    ensures
        json.tree() == answer_tree(trees(data@), created),
{
    let ghost shown = JsonTree::Array(trees(data@));
    let list = Json::Array(data);
    assert(list.tree()->Array_0 =~= trees(data@));
    let object = JsonObject::new().with("data", list).with("created", Json::Integer(created));
    proof {
        reveal_strlit("created");
        reveal_strlit("data");
        assert("created"@[0] == 'c' && "data"@[0] == 'd');
        assert(with_member(Seq::empty(), "data"@, shown) =~= seq![("data"@, shown)]);
        assert(object.entries() =~= seq![
            ("created"@, JsonTree::Integer(created)),
            ("data"@, shown),
        ]);
    }
    Json::Object(object)
}

/// Everything that the assets give is a final result, and every asset that is one with a name is
/// there.
proof fn files_in_are_outputs(assets: Seq<JsonTree>, kind: MediaKind)
    ensures
        forall|i: int|
            0 <= i < files_in(assets, kind).len() ==> (#[trigger] files_in(
                assets,
                kind,
            )[i]).type_field == "output"@,
        forall|j: int|
            0 <= j < assets.len() ==> (asset_file(#[trigger] assets[j], kind) matches Some(file)
                ==> files_in(assets, kind).contains(file)),
    decreases assets.len(),
{
    if assets.len() > 0 {
        let front = assets.drop_last();
        let before = files_in(front, kind);
        let all = files_in(assets, kind);
        files_in_are_outputs(front, kind);
        assert forall|i: int| 0 <= i < all.len() implies (#[trigger] all[i]).type_field
            == "output"@ by {
            if i < before.len() {
                assert(all[i] == before[i]);
            }
        }
        assert forall|j: int| 0 <= j < assets.len() implies (asset_file(
            #[trigger] assets[j],
            kind,
        ) matches Some(file) ==> all.contains(file)) by {
            if let Some(file) = asset_file(assets[j], kind) {
                if j < front.len() {
                    assert(assets[j] == front[j]);
                    let k = choose|k: int| 0 <= k < before.len() && before[k] == file;
                    assert(all[k] == file);
                } else {
                    assert(all.last() == file);
                }
            }
        }
    }
}

/// The keys under which an output node of such a job lists its files.
pub open spec fn is_listing_key(key: Seq<char>, kind: MediaKind) -> bool {
    key == "images"@ || (kind == MediaKind::Video && (key == "gifs"@ || key == "videos"@))
}

/// Everything that an output node gives is a final result.
proof fn files_of_node_are_outputs(node: JsonTree, kind: MediaKind)
    ensures
        forall|i: int|
            0 <= i < files_of_node(node, kind).len() ==> (#[trigger] files_of_node(
                node,
                kind,
            )[i]).type_field == "output"@,
{
    let images = files_under(node, "images"@, kind);
    let gifs = files_under(node, "gifs"@, kind);
    let videos = files_under(node, "videos"@, kind);
    if let JsonTree::Array(assets) = node.at("images"@) {
        files_in_are_outputs(assets, kind);
    }
    if let JsonTree::Array(assets) = node.at("gifs"@) {
        files_in_are_outputs(assets, kind);
    }
    if let JsonTree::Array(assets) = node.at("videos"@) {
        files_in_are_outputs(assets, kind);
    }
    if kind == MediaKind::Video {
        let all = files_of_node(node, kind);
        assert forall|i: int| 0 <= i < all.len() implies (#[trigger] all[i]).type_field
            == "output"@ by {
            if i < gifs.len() {
                assert(all[i] == gifs[i]);
            } else if i < gifs.len() + videos.len() {
                assert(all[i] == videos[i - gifs.len()]);
            } else {
                assert(all[i] == images[i - gifs.len() - videos.len()]);
            }
        }
    }
}

/// An output node gives the file of every asset that it lists.
proof fn node_gives_its_files(node: JsonTree, key: Seq<char>, kind: MediaKind, at: int)
    requires
        is_listing_key(key, kind),
        node.at(key) matches JsonTree::Array(assets) && 0 <= at < assets.len() && asset_file(
            assets[at],
            kind,
        ) is Some,
    ensures
        files_of_node(node, kind).contains(asset_file(node.at(key)->Array_0[at], kind)->0),
{
    let assets = node.at(key)->Array_0;
    let file = asset_file(assets[at], kind)->0;
    files_in_are_outputs(assets, kind);
    let under = files_under(node, key, kind);
    let k = choose|k: int| 0 <= k < under.len() && under[k] == file;
    if kind == MediaKind::Video {
        let gifs = files_under(node, "gifs"@, kind);
        let videos = files_under(node, "videos"@, kind);
        let all = files_of_node(node, kind);
        if key == "gifs"@ {
            assert(all[k] == file);
        } else if key == "videos"@ {
            assert(all[gifs.len() + k] == file);
        } else {
            assert(all[gifs.len() + videos.len() + k] == file);
        }
    } else {
        assert(files_of_node(node, kind)[k] == file);
    }
}

/// Only final results are handed to the client: no preview and nothing temporary.
pub proof fn only_outputs_are_listed(outputs: Seq<(Seq<char>, JsonTree)>, kind: MediaKind)
    ensures
        forall|i: int|
            0 <= i < files_of_outputs(outputs, kind).len() ==> (#[trigger] files_of_outputs(
                outputs,
                kind,
            )[i]).type_field == "output"@,
    decreases outputs.len(),
{
    if outputs.len() > 0 {
        let before = files_of_outputs(outputs.drop_last(), kind);
        let last = files_of_node(outputs.last().1, kind);
        let all = files_of_outputs(outputs, kind);
        only_outputs_are_listed(outputs.drop_last(), kind);
        files_of_node_are_outputs(outputs.last().1, kind);
        assert forall|i: int| 0 <= i < all.len() implies (#[trigger] all[i]).type_field
            == "output"@ by {
            if i < before.len() {
                assert(all[i] == before[i]);
            } else {
                assert(all[i] == last[i - before.len()]);
            }
        }
    }
}

/// Every final result is handed to the client: the file of every asset that an output node lists.
pub proof fn every_output_is_listed(
    outputs: Seq<(Seq<char>, JsonTree)>,
    node: int,
    key: Seq<char>,
    kind: MediaKind,
    at: int,
)
    requires
        0 <= node < outputs.len(),
        is_listing_key(key, kind),
        outputs[node].1.at(key) matches JsonTree::Array(assets) && 0 <= at < assets.len()
            && asset_file(assets[at], kind) is Some,
    ensures
        files_of_outputs(outputs, kind).contains(
            asset_file(outputs[node].1.at(key)->Array_0[at], kind)->0,
        ),
    decreases outputs.len(),
{
    let file = asset_file(outputs[node].1.at(key)->Array_0[at], kind)->0;
    let before = files_of_outputs(outputs.drop_last(), kind);
    let last = files_of_node(outputs.last().1, kind);
    let all = files_of_outputs(outputs, kind);
    if node < outputs.len() - 1 {
        assert(outputs.drop_last()[node] == outputs[node]);
        every_output_is_listed(outputs.drop_last(), node, key, kind, at);
        let k = choose|k: int| 0 <= k < before.len() && before[k] == file;
        assert(all[k] == file);
    } else {
        node_gives_its_files(outputs[node].1, key, kind, at);
        let k = choose|k: int| 0 <= k < last.len() && last[k] == file;
        assert(all[before.len() + k] == file);
    }
}

/// The files come in the order of the output nodes: those of one run of nodes before those of the
/// next.
pub proof fn files_keep_the_order_of_nodes(
    first: Seq<(Seq<char>, JsonTree)>,
    next: Seq<(Seq<char>, JsonTree)>,
    kind: MediaKind,
)
    ensures
        files_of_outputs(first + next, kind) == files_of_outputs(first, kind) + files_of_outputs(
            next,
            kind,
        ),
    decreases next.len(),
{
    let all = first + next;
    if next.len() == 0 {
        assert(all =~= first);
        assert(files_of_outputs(all, kind) =~= files_of_outputs(first, kind) + files_of_outputs(
            next,
            kind,
        ));
    } else {
        files_keep_the_order_of_nodes(first, next.drop_last(), kind);
        assert(all.drop_last() =~= first + next.drop_last());
        assert(files_of_outputs(all, kind) =~= files_of_outputs(first, kind) + files_of_outputs(
            next,
            kind,
        ));
    }
}

/// The client reads from the answer what the files are and when they were made.
pub proof fn answer_reads_back(data: Seq<JsonTree>, created: i64)
    ensures
        answer_tree(data, created).at("data"@) == JsonTree::Array(data),
        answer_tree(data, created).integer_at("created"@) == Some(created),
{
    reveal_strlit("created");
    reveal_strlit("data");
    assert("created"@[0] == 'c' && "data"@[0] == 'd');
    reveal_with_fuel(lookup, 3);
    let members = answer_tree(data, created)->Object_0;
    assert(members.drop_first()[0] == ("data"@, JsonTree::Array(data)));
}

/// The client reads the content of a file as base64 from its entry, and of a video job also what
/// the file is.
pub proof fn entry_reads_back(filename: Seq<char>, kind: MediaKind, content: Seq<u8>)
    ensures
        entry_of(filename, kind, content).text_at("b64_json"@) == Some(base64_text(content)),
        entry_of(filename, kind, content).text_at("mime_type"@) == (match kind {
            MediaKind::Image => None,
            MediaKind::Video => Some(mime_of(filename)),
        }),
{
    reveal_strlit("b64_json");
    reveal_strlit("mime_type");
    assert("b64_json"@[0] == 'b' && "mime_type"@[0] == 'm');
    reveal_with_fuel(lookup, 3);
    let members = entry_of(filename, kind, content)->Object_0;
    if kind == MediaKind::Video {
        assert(members.drop_first()[0] == ("mime_type"@, JsonTree::Text(mime_of(filename))));
    }
}

} // verus!
