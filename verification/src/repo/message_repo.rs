//! Messages as they are read back from storage: the content rows of the
//! active versions grouped into one prompt message per node, the chunks of
//! each version gathered into its content, and a page of nodes with their
//! versions.

use vstd::prelude::*;

use crate::models::message::{ImageAttachment, MessageNode, MessageVersion, PromptMessage};
use crate::domain::copy_opt;
use crate::services::channel_service::opt_view;
use crate::text::str_eq;

verus! {

/// What a stored content row holds.
#[derive(Debug, Clone, PartialEq, Eq)]
pub enum PromptRowBody {
    /// Text of the message (`text/plain`).
    Text(String),
    /// An image sent with the message (`image/base64`), as read from its JSON.
    Image(ImageAttachment),
    /// A reasoning trace (`text/thinking`); it is not sent.
    Thinking(String),
    /// Anything else; it is not sent.
    Other,
}

/// One content row of an active message version, in prompt order.
#[derive(Debug, Clone, PartialEq, Eq)]
pub struct PromptRow {
    pub node_id: String,
    pub role: String,
    pub body: PromptRowBody,
}

/// The grouping so far: the node and role being read, its text and images,
/// and the messages already closed (role, text, images).
pub struct PromptGrouping {
    pub node: Seq<char>,
    pub role: Seq<char>,
    pub body: Seq<char>,
    pub images: Seq<ImageAttachment>,
    pub done: Seq<(Seq<char>, Seq<char>, Seq<ImageAttachment>)>,
}

/// Nothing read yet.
pub open spec fn grouping_start() -> PromptGrouping {
    PromptGrouping { node: Seq::empty(), role: Seq::empty(), body: Seq::empty(), images: Seq::empty(), done: Seq::empty() }
}

/// The grouping after one more row: while no node is being read, the row's
/// node and role are taken up; a row of another node closes the message
/// being read and starts one for its own node; then its text is appended or
/// its image added.
pub open spec fn group_row(g: PromptGrouping, row: PromptRow) -> PromptGrouping {
    let g1 = if g.node.len() == 0 {
        PromptGrouping { node: row.node_id@, role: row.role@, ..g }
    } else {
        g
    };
    let g2 = if g1.node != row.node_id@ {
        PromptGrouping {
            node: row.node_id@,
            role: row.role@,
            body: Seq::empty(),
            images: Seq::empty(),
            done: g1.done.push((g1.role, g1.body, g1.images)),
        }
    } else {
        g1
    };
    match row.body {
        PromptRowBody::Text(t) => PromptGrouping { body: g2.body + t@, ..g2 },
        PromptRowBody::Image(i) => PromptGrouping { images: g2.images.push(i), ..g2 },
        _ => g2,
    }
}

/// The grouping after all of `rows`.
pub open spec fn group_rows(rows: Seq<PromptRow>) -> PromptGrouping
    decreases rows.len(),
{
    if rows.len() == 0 {
        grouping_start()
    } else {
        group_row(group_rows(rows.drop_last()), rows.last())
    }
}

/// The prompt the rows make: the closed messages, then the last one when
/// it has text or images.
pub open spec fn prompt_of(rows: Seq<PromptRow>) -> Seq<(Seq<char>, Seq<char>, Seq<ImageAttachment>)> {
    let g = group_rows(rows);
    if g.body.len() > 0 || g.images.len() > 0 {
        g.done.push((g.role, g.body, g.images))
    } else {
        g.done
    }
}

/// The role, text and images of prompt messages.
pub open spec fn prompt_messages_view(v: Seq<PromptMessage>) -> Seq<(Seq<char>, Seq<char>, Seq<ImageAttachment>)> {
    v.map_values(|m: PromptMessage| (m.role@, m.content@, m.images@))
}

impl ImageAttachment {
    /// A copy of the image.
    pub fn duplicate(&self) -> (r: Self)
        ensures
            r == *self,
    {
        ImageAttachment { base64: self.base64.clone(), mime_type: self.mime_type.clone() }
    }
}

/// The messages of a prompt from the content rows of the active versions,
/// in order: consecutive rows of one node make one message, whose text is
/// the concatenation of its text rows and whose images are its image rows;
/// the last message is kept only when it has text or images.
pub fn build_prompt_messages(rows: &[PromptRow]) -> (r: Vec<PromptMessage>)
    ensures
        prompt_messages_view(r@) == prompt_of(rows@),
{
    let mut prompts: Vec<PromptMessage> = Vec::new();
    let mut node = String::new();
    let mut role = String::new();
    let mut body = String::new();
    let mut images: Vec<ImageAttachment> = Vec::new();
    let mut i: usize = 0;
    assert(prompt_messages_view(prompts@) =~= Seq::empty());
    while i < rows.len()
        invariant
            i <= rows@.len(),
            group_rows(rows@.take(i as int)) == (PromptGrouping {
                node: node@,
                role: role@,
                body: body@,
                images: images@,
                done: prompt_messages_view(prompts@),
            }),
        decreases rows.len() - i,
    {
        proof {
            assert(rows@.take(i + 1 as int).drop_last() =~= rows@.take(i as int));
            assert(rows@.take(i + 1 as int).last() == rows@[i as int]);
        }
        let row = &rows[i];
        if node.as_str().unicode_len() == 0 {
            node = row.node_id.clone();
            role = row.role.clone();
        }
        if !str_eq(node.as_str(), row.node_id.as_str()) {
            let ghost before = prompt_messages_view(prompts@);
            let ghost closed = (role@, body@, images@);
            prompts.push(PromptMessage { role, content: body, images });
            proof {
                assert(prompt_messages_view(prompts@) =~= before.push(closed));
            }
            node = row.node_id.clone();
            role = row.role.clone();
            body = String::new();
            images = Vec::new();
            proof {
                assert(images@ =~= Seq::<ImageAttachment>::empty());
            }
        }
        match &row.body {
            PromptRowBody::Text(t) => {
                body.append(t.as_str());
            },
            PromptRowBody::Image(image) => {
                images.push(image.duplicate());
            },
            _ => {},
        }
        i = i + 1;
    }
    proof {
        assert(rows@.take(rows@.len() as int) =~= rows@);
    }
    if body.as_str().unicode_len() > 0 || images.len() > 0 {
        let ghost before = prompt_messages_view(prompts@);
        let ghost last = (role@, body@, images@);
        prompts.push(PromptMessage { role, content: body, images });
        proof {
            assert(prompt_messages_view(prompts@) =~= before.push(last));
        }
    }
    prompts
}

/// A copy of a list of images.
pub fn duplicate_images(images: &Vec<ImageAttachment>) -> (r: Vec<ImageAttachment>)
    ensures
        r@ == images@,
{
    let mut out: Vec<ImageAttachment> = Vec::new();
    let mut i: usize = 0;
    while i < images.len()
        invariant
            i <= images@.len(),
            out@ == images@.take(i as int),
        decreases images.len() - i,
    {
        out.push(images[i].duplicate());
        proof {
            assert(out@ =~= images@.take(i + 1 as int));
        }
        i = i + 1;
    }
    proof {
        assert(images@.take(images@.len() as int) =~= images@);
    }
    out
}

/// One stored content chunk of a version, in chunk order.
#[derive(Debug, Clone, PartialEq, Eq)]
pub struct ContentRow {
    pub version_id: String,
    pub body: PromptRowBody,
}

/// The content of a version gathered from its chunks.
#[derive(Debug, Clone, PartialEq, Eq)]
pub struct AggregatedVersionContent {
    pub version_id: String,
    pub text: String,
    pub thinking: String,
    pub images: Vec<ImageAttachment>,
}

/// A version's gathered content: its id, text, thinking text and images.
pub struct ContentView {
    pub version_id: Seq<char>,
    pub text: Seq<char>,
    pub thinking: Seq<char>,
    pub images: Seq<ImageAttachment>,
}

/// The gathered content as texts.
pub open spec fn content_view(a: AggregatedVersionContent) -> ContentView {
    ContentView { version_id: a.version_id@, text: a.text@, thinking: a.thinking@, images: a.images@ }
}

/// The gathered contents as texts.
pub open spec fn contents_view(v: Seq<AggregatedVersionContent>) -> Seq<ContentView> {
    v.map_values(|a: AggregatedVersionContent| content_view(a))
}

/// The position of the first gathered content of version `id`.
pub open spec fn content_index(cs: Seq<ContentView>, id: Seq<char>) -> Option<int>
    decreases cs.len(),
{
    if cs.len() == 0 {
        None
    } else {
        match content_index(cs.drop_last(), id) {
            Some(k) => Some(k),
            None => if cs.last().version_id == id {
                Some(cs.len() - 1)
            } else {
                None
            },
        }
    }
}

/// A gathered content after one more chunk: text and thinking are appended,
/// an image is added, anything else is skipped.
pub open spec fn add_chunk(c: ContentView, body: PromptRowBody) -> ContentView {
    match body {
        PromptRowBody::Text(t) => ContentView { text: c.text + t@, ..c },
        PromptRowBody::Thinking(t) => ContentView { thinking: c.thinking + t@, ..c },
        PromptRowBody::Image(i) => ContentView { images: c.images.push(i), ..c },
        PromptRowBody::Other => c,
    }
}

/// The contents gathered from the chunks, one per version in the order in
/// which versions first appear.
pub open spec fn gather_contents(rows: Seq<ContentRow>) -> Seq<ContentView>
    decreases rows.len(),
{
    if rows.len() == 0 {
        Seq::empty()
    } else {
        let cs = gather_contents(rows.drop_last());
        let row = rows.last();
        match content_index(cs, row.version_id@) {
            Some(k) => cs.update(k, add_chunk(cs[k], row.body)),
            None => cs.push(
                add_chunk(
                    ContentView {
                        version_id: row.version_id@,
                        text: Seq::empty(),
                        thinking: Seq::empty(),
                        images: Seq::empty(),
                    },
                    row.body,
                ),
            ),
        }
    }
}

proof fn lemma_content_index(cs: Seq<ContentView>, id: Seq<char>)
    ensures
        match content_index(cs, id) {
            Some(k) => 0 <= k < cs.len() && cs[k].version_id == id && forall|j: int| 0 <= j < k ==> (#[trigger] cs[j]).version_id != id,
            None => forall|j: int| 0 <= j < cs.len() ==> (#[trigger] cs[j]).version_id != id,
        },
    decreases cs.len(),
{
    if cs.len() > 0 {
        let d = cs.drop_last();
        lemma_content_index(d, id);
        assert forall|j: int| 0 <= j < d.len() implies d[j] == cs[j] by {}
        match content_index(d, id) {
            Some(k) => {
                assert forall|j: int| 0 <= j < k implies (#[trigger] cs[j]).version_id != id by {
                    assert(d[j] == cs[j]);
                }
            },
            None => {
                if cs.last().version_id == id {
                    assert forall|j: int| 0 <= j < cs.len() - 1 implies (#[trigger] cs[j]).version_id != id by {
                        assert(d[j] == cs[j]);
                    }
                } else {
                    assert forall|j: int| 0 <= j < cs.len() implies (#[trigger] cs[j]).version_id != id by {
                        if j < d.len() {
                            assert(d[j] == cs[j]);
                        }
                    }
                }
            },
        }
    }
}

fn find_content(cs: &[AggregatedVersionContent], id: &str) -> (r: Option<usize>)
    ensures
        match r {
            Some(k) => content_index(contents_view(cs@), id@) == Some(k as int),
            None => content_index(contents_view(cs@), id@) is None,
        },
{
    proof {
        lemma_content_index(contents_view(cs@), id@);
    }
    let mut k: usize = 0;
    while k < cs.len()
        invariant
            k <= cs@.len(),
            forall|j: int| 0 <= j < k ==> (#[trigger] contents_view(cs@)[j]).version_id != id@,
        decreases cs.len() - k,
    {
        if str_eq(cs[k].version_id.as_str(), id) {
            proof {
                let v = contents_view(cs@);
                lemma_content_index(v, id@);
                assert(v[k as int].version_id == id@);
                match content_index(v, id@) {
                    Some(k0) => {
                        if k0 < k {
                            assert(v[k0].version_id != id@);
                        }
                        if k0 > k {
                            assert(v[k as int].version_id != id@);
                        }
                    },
                    None => {
                        assert(v[k as int].version_id != id@);
                    },
                }
            }
            return Some(k);
        }
        proof {
            assert(contents_view(cs@)[k as int].version_id != id@);
        }
        k = k + 1;
    }
    proof {
        lemma_content_index(contents_view(cs@), id@);
    }
    None
}

fn add_chunk_to(c: &mut AggregatedVersionContent, body: &PromptRowBody)
    ensures
        content_view(*final(c)) == add_chunk(content_view(*old(c)), *body),
{
    match body {
        PromptRowBody::Text(t) => c.text.append(t.as_str()),
        PromptRowBody::Thinking(t) => c.thinking.append(t.as_str()),
        PromptRowBody::Image(i) => c.images.push(i.duplicate()),
        PromptRowBody::Other => {},
    }
}

/// The content of each version gathered from its chunks, in the order in
/// which the versions first appear: text and thinking chunks concatenated,
/// images collected, other chunks skipped.
pub fn load_contents_map(rows: &[ContentRow]) -> (r: Vec<AggregatedVersionContent>)
    ensures
        contents_view(r@) == gather_contents(rows@),
{
    let mut cs: Vec<AggregatedVersionContent> = Vec::new();
    let mut i: usize = 0;
    proof {
        assert(contents_view(cs@) =~= Seq::empty());
    }
    while i < rows.len()
        invariant
            i <= rows@.len(),
            contents_view(cs@) == gather_contents(rows@.take(i as int)),
        decreases rows.len() - i,
    {
        proof {
            assert(rows@.take(i + 1 as int).drop_last() =~= rows@.take(i as int));
            assert(rows@.take(i + 1 as int).last() == rows@[i as int]);
        }
        let row = &rows[i];
        let ghost before = contents_view(cs@);
        proof {
            lemma_content_index(before, row.version_id@);
        }
        match find_content(cs.as_slice(), row.version_id.as_str()) {
            Some(k) => {
                let mut c = cs.remove(k);
                add_chunk_to(&mut c, &row.body);
                cs.insert(k, c);
                proof {
                    assert(contents_view(cs@) =~= before.update(k as int, add_chunk(before[k as int], row.body)));
                }
            },
            None => {
                let mut c = AggregatedVersionContent {
                    version_id: row.version_id.clone(),
                    text: String::new(),
                    thinking: String::new(),
                    images: Vec::new(),
                };
                proof {
                    assert(c.images@ =~= Seq::<ImageAttachment>::empty());
                }
                add_chunk_to(&mut c, &row.body);
                cs.push(c);
                proof {
                    assert(contents_view(cs@) =~= before.push(content_view(c)));
                }
            },
        }
        i = i + 1;
    }
    proof {
        assert(rows@.take(rows@.len() as int) =~= rows@);
    }
    cs
}

/// One row of a page of messages: a node, and one of its versions if it has any.
#[derive(Debug, Clone, PartialEq, Eq)]
pub struct MessageNodeVersionRow {
    pub node_id: String,
    pub conversation_id: String,
    pub author_agent_id: Option<String>,
    pub role: String,
    pub order_key: String,
    pub active_version_id: Option<String>,
    pub node_created_at: i64,
    pub version_id: Option<String>,
    pub status: Option<String>,
    pub model_name: Option<String>,
    pub prompt_tokens: Option<i64>,
    pub completion_tokens: Option<i64>,
    pub finish_reason: Option<String>,
    pub version_created_at: Option<i64>,
}

/// A message version as texts.
pub struct VersionView {
    pub id: Seq<char>,
    pub node_id: Seq<char>,
    pub content: Option<Seq<char>>,
    pub thinking_content: Option<Seq<char>>,
    pub images: Seq<ImageAttachment>,
    pub status: Seq<char>,
    pub model_name: Option<Seq<char>>,
    pub prompt_tokens: Option<i64>,
    pub completion_tokens: Option<i64>,
    pub finish_reason: Option<Seq<char>>,
    pub created_at: i64,
}

/// A message version as texts.
pub open spec fn version_view(v: MessageVersion) -> VersionView {
    VersionView {
        id: v.id@,
        node_id: v.node_id@,
        content: opt_view(v.content),
        thinking_content: opt_view(v.thinking_content),
        images: v.images@,
        status: v.status@,
        model_name: opt_view(v.model_name),
        prompt_tokens: v.prompt_tokens,
        completion_tokens: v.completion_tokens,
        finish_reason: opt_view(v.finish_reason),
        created_at: v.created_at,
    }
}

/// A message node as texts.
pub struct NodeView {
    pub id: Seq<char>,
    pub conversation_id: Seq<char>,
    pub author_agent_id: Option<Seq<char>>,
    pub role: Seq<char>,
    pub order_key: Seq<char>,
    pub active_version_id: Option<Seq<char>>,
    pub versions: Seq<VersionView>,
    pub created_at: i64,
}

/// A message node as texts.
pub open spec fn node_view(n: MessageNode) -> NodeView {
    NodeView {
        id: n.id@,
        conversation_id: n.conversation_id@,
        author_agent_id: opt_view(n.author_agent_id),
        role: n.role@,
        order_key: n.order_key@,
        active_version_id: opt_view(n.active_version_id),
        versions: n.versions@.map_values(|v: MessageVersion| version_view(v)),
        created_at: n.created_at,
    }
}

/// Message nodes as texts.
pub open spec fn nodes_view(v: Seq<MessageNode>) -> Seq<NodeView> {
    v.map_values(|n: MessageNode| node_view(n))
}

/// A text when it is not empty.
pub open spec fn nonempty_text(t: Seq<char>) -> Option<Seq<char>> {
    if t.len() > 0 {
        Some(t)
    } else {
        None
    }
}

/// The version `vid` of a row: only the active version carries its
/// gathered text, thinking text (each when not empty) and images; the
/// status is `committed` when none is stored, the time that of the node.
pub open spec fn row_version(row: MessageNodeVersionRow, active: Option<Seq<char>>, contents: Seq<ContentView>, vid: Seq<char>) -> VersionView {
    let found = if active == Some(vid) {
        match content_index(contents, vid) {
            Some(k) => Some(contents[k]),
            None => None,
        }
    } else {
        None
    };
    VersionView {
        id: vid,
        node_id: row.node_id@,
        content: match found {
            Some(c) => nonempty_text(c.text),
            None => None,
        },
        thinking_content: match found {
            Some(c) => nonempty_text(c.thinking),
            None => None,
        },
        images: match found {
            Some(c) => c.images,
            None => Seq::empty(),
        },
        status: match row.status {
            Some(st) => st@,
            None => "committed"@,
        },
        model_name: opt_view(row.model_name),
        prompt_tokens: row.prompt_tokens,
        completion_tokens: row.completion_tokens,
        finish_reason: opt_view(row.finish_reason),
        created_at: match row.version_created_at {
            Some(t) => t,
            None => row.node_created_at,
        },
    }
}

/// The node a row opens, without versions.
pub open spec fn row_node(row: MessageNodeVersionRow) -> NodeView {
    NodeView {
        id: row.node_id@,
        conversation_id: row.conversation_id@,
        author_agent_id: opt_view(row.author_agent_id),
        role: row.role@,
        order_key: row.order_key@,
        active_version_id: opt_view(row.active_version_id),
        versions: Seq::empty(),
        created_at: row.node_created_at,
    }
}

/// The position of the first node `id`.
pub open spec fn node_index(ns: Seq<NodeView>, id: Seq<char>) -> Option<int>
    decreases ns.len(),
{
    if ns.len() == 0 {
        None
    } else {
        match node_index(ns.drop_last(), id) {
            Some(k) => Some(k),
            None => if ns.last().id == id {
                Some(ns.len() - 1)
            } else {
                None
            },
        }
    }
}

proof fn lemma_node_index(ns: Seq<NodeView>, id: Seq<char>)
    ensures
        match node_index(ns, id) {
            Some(k) => 0 <= k < ns.len() && ns[k].id == id && forall|j: int| 0 <= j < k ==> (#[trigger] ns[j]).id != id,
            None => forall|j: int| 0 <= j < ns.len() ==> (#[trigger] ns[j]).id != id,
        },
    decreases ns.len(),
{
    if ns.len() > 0 {
        let d = ns.drop_last();
        lemma_node_index(d, id);
        assert forall|j: int| 0 <= j < d.len() implies d[j] == ns[j] by {}
        match node_index(d, id) {
            Some(k) => {
                assert forall|j: int| 0 <= j < k implies (#[trigger] ns[j]).id != id by {
                    assert(d[j] == ns[j]);
                }
            },
            None => {
                if ns.last().id == id {
                    assert forall|j: int| 0 <= j < ns.len() - 1 implies (#[trigger] ns[j]).id != id by {
                        assert(d[j] == ns[j]);
                    }
                } else {
                    assert forall|j: int| 0 <= j < ns.len() implies (#[trigger] ns[j]).id != id by {
                        if j < d.len() {
                            assert(d[j] == ns[j]);
                        }
                    }
                }
            },
        }
    }
}

/// The nodes of a page from its rows, in the order in which nodes first
/// appear, each with the versions of its rows in row order.
pub open spec fn assemble_nodes(rows: Seq<MessageNodeVersionRow>, contents: Seq<ContentView>) -> Seq<NodeView>
    decreases rows.len(),
{
    if rows.len() == 0 {
        Seq::empty()
    } else {
        let ns = assemble_nodes(rows.drop_last(), contents);
        let row = rows.last();
        let ns1 = match node_index(ns, row.node_id@) {
            Some(_) => ns,
            None => ns.push(row_node(row)),
        };
        let k = match node_index(ns, row.node_id@) {
            Some(k) => k,
            None => ns.len() as int,
        };
        match row.version_id {
            Some(vid) => ns1.update(
                k,
                NodeView {
                    versions: ns1[k].versions.push(row_version(row, ns1[k].active_version_id, contents, vid@)),
                    ..ns1[k]
                },
            ),
            None => ns1,
        }
    }
}

fn find_node(ns: &Vec<MessageNode>, id: &str) -> (r: Option<usize>)
    ensures
        match r {
            Some(k) => node_index(nodes_view(ns@), id@) == Some(k as int),
            None => node_index(nodes_view(ns@), id@) is None,
        },
{
    let mut k: usize = 0;
    while k < ns.len()
        invariant
            k <= ns@.len(),
            forall|j: int| 0 <= j < k ==> (#[trigger] nodes_view(ns@)[j]).id != id@,
        decreases ns.len() - k,
    {
        if str_eq(ns[k].id.as_str(), id) {
            proof {
                let v = nodes_view(ns@);
                lemma_node_index(v, id@);
                assert(v[k as int].id == id@);
                match node_index(v, id@) {
                    Some(k0) => {
                        if k0 < k {
                            assert(v[k0].id != id@);
                        }
                        if k0 > k {
                            assert(v[k as int].id != id@);
                        }
                    },
                    None => {
                        assert(v[k as int].id != id@);
                    },
                }
            }
            return Some(k);
        }
        proof {
            assert(nodes_view(ns@)[k as int].id != id@);
        }
        k = k + 1;
    }
    proof {
        lemma_node_index(nodes_view(ns@), id@);
    }
    None
}

fn nonempty_copy(t: &String) -> (r: Option<String>)
    ensures
        opt_view(r) == nonempty_text(t@),
{
    if t.as_str().unicode_len() > 0 {
        Some(t.clone())
    } else {
        None
    }
}

fn build_version(
    row: &MessageNodeVersionRow,
    active: &Option<String>,
    contents: &[AggregatedVersionContent],
    vid: &String,
) -> (v: MessageVersion)
    ensures
        version_view(v) == row_version(*row, opt_view(*active), contents_view(contents@), vid@),
{
    let is_active = match active {
        Some(a) => str_eq(a.as_str(), vid.as_str()),
        None => false,
    };
    let found = if is_active {
        find_content(contents, vid.as_str())
    } else {
        None
    };
    proof {
        lemma_content_index(contents_view(contents@), vid@);
        reveal_strlit("committed");
    }
    let (content, thinking_content, images) = match found {
        Some(k) => (
            nonempty_copy(&contents[k].text),
            nonempty_copy(&contents[k].thinking),
            duplicate_images(&contents[k].images),
        ),
        None => (None, None, Vec::new()),
    };
    proof {
        assert(found is None ==> images@ =~= Seq::<ImageAttachment>::empty());
    }
    MessageVersion {
        id: vid.clone(),
        node_id: row.node_id.clone(),
        content,
        thinking_content,
        images,
        status: match &row.status {
            Some(st) => st.clone(),
            None => String::from_str("committed"),
        },
        model_name: copy_opt(&row.model_name),
        prompt_tokens: row.prompt_tokens,
        completion_tokens: row.completion_tokens,
        finish_reason: copy_opt(&row.finish_reason),
        created_at: match row.version_created_at {
            Some(t) => t,
            None => row.node_created_at,
        },
    }
}

/// A page of messages from its rows (nodes in order, each joined with its
/// versions) and the gathered contents of the active versions: one node
/// per distinct node in the order of first appearance, with the versions
/// of its rows in order; only the active version carries its text,
/// thinking text and images.
pub fn list_messages(rows: &[MessageNodeVersionRow], contents: &[AggregatedVersionContent]) -> (r: Vec<MessageNode>)
    ensures
        nodes_view(r@) == assemble_nodes(rows@, contents_view(contents@)),
{
    let ghost cv = contents_view(contents@);
    let mut nodes: Vec<MessageNode> = Vec::new();
    let mut i: usize = 0;
    proof {
        assert(nodes_view(nodes@) =~= Seq::empty());
    }
    while i < rows.len()
        invariant
            i <= rows@.len(),
            cv == contents_view(contents@),
            nodes_view(nodes@) == assemble_nodes(rows@.take(i as int), cv),
        decreases rows.len() - i,
    {
        proof {
            assert(rows@.take(i + 1 as int).drop_last() =~= rows@.take(i as int));
            assert(rows@.take(i + 1 as int).last() == rows@[i as int]);
        }
        let row = &rows[i];
        let ghost ns = nodes_view(nodes@);
        proof {
            lemma_node_index(ns, row.node_id@);
        }
        let k = match find_node(&nodes, row.node_id.as_str()) {
            Some(k) => k,
            None => {
                let node = MessageNode {
                    id: row.node_id.clone(),
                    conversation_id: row.conversation_id.clone(),
                    author_agent_id: copy_opt(&row.author_agent_id),
                    role: row.role.clone(),
                    order_key: row.order_key.clone(),
                    active_version_id: copy_opt(&row.active_version_id),
                    versions: Vec::new(),
                    created_at: row.node_created_at,
                };
                proof {
                    assert(node_view(node).versions =~= Seq::<VersionView>::empty());
                    assert(node_view(node) == row_node(*row));
                }
                nodes.push(node);
                proof {
                    assert(nodes_view(nodes@) =~= ns.push(row_node(*row)));
                }
                nodes.len() - 1
            },
        };
        let ghost ns1 = nodes_view(nodes@);
        match &row.version_id {
            Some(vid) => {
                let mut node = nodes.remove(k);
                let ghost old_node = node_view(node);
                let v = build_version(row, &node.active_version_id, contents, vid);
                node.versions.push(v);
                proof {
                    assert(node_view(node).versions =~= old_node.versions.push(version_view(v)));
                    assert(node_view(node) == (NodeView { versions: old_node.versions.push(version_view(v)), ..old_node }));
                }
                nodes.insert(k, node);
                proof {
                    assert(nodes_view(nodes@) =~= ns1.update(
                        k as int,
                        NodeView { versions: ns1[k as int].versions.push(version_view(v)), ..ns1[k as int] },
                    ));
                }
            },
            None => {},
        }
        i = i + 1;
    }
    proof {
        assert(rows@.take(rows@.len() as int) =~= rows@);
    }
    nodes
}

} // verus!
