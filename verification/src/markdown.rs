use vstd::prelude::*;
use vstd::string::StrSliceExecFns;
use vstd::utf8::encode_utf8;

use crate::text::{byte_slice, slice_bytes, trim, trimmed, valid_byte_range};

verus! {

broadcast use vstd::utf8::group_utf8_lib;

// ---------------------------------------------------------------------------
// Text messages and their entities
// ---------------------------------------------------------------------------

/// What kind of markup an entity of a text message is.
#[derive(Clone, Debug, PartialEq, Eq)]
pub enum EntityKind {
    Bold,
    Italic,
    /// A URL written out in the text.
    Url,
    /// Text that links to `url` (the URL's serialization).
    TextLink { url: String },
    /// Any other kind of entity.
    Other,
}

/// An entity of a text message: `length` bytes of the text from byte
/// `offset` on.
#[derive(Clone, Debug, PartialEq, Eq)]
pub struct MessageEntity {
    pub kind: EntityKind,
    pub offset: usize,
    pub length: usize,
}

/// A text message: the text and its entities.
#[derive(Clone, Debug, PartialEq, Eq)]
pub struct MediaText {
    pub text: String,
    pub entities: Vec<MessageEntity>,
}

/// Whether the bytes of entity `e` are a range that slicing `text` accepts
/// (its end computed without overflow).
pub open spec fn entity_in_text(text: Seq<char>, e: MessageEntity) -> bool {
    &&& e.offset + e.length <= usize::MAX
    &&& valid_byte_range(text, e.offset as int, e.offset + e.length)
}

/// The text that entity `e` covers.
pub open spec fn entity_text_of(text: Seq<char>, e: MessageEntity) -> Seq<char> {
    byte_slice(text, e.offset as int, e.offset + e.length)
}

/// The characters of `text` that entity `e` covers, as `&text[offset..offset +
/// length]` gives them.
pub fn entity_text(text: &str, e: &MessageEntity) -> (res: String)
    requires
        entity_in_text(text@, *e),
    ensures
        res@ == entity_text_of(text@, *e),
{
    String::from_str(slice_bytes(text, e.offset, e.offset + e.length))
}

// ---------------------------------------------------------------------------
// The note written for a text message
// ---------------------------------------------------------------------------

/// The line written for entity `e` of `text`, whose link has the title
/// `title`: a nested item with the linked text and a markdown link for each
/// text link, nothing for any other entity.
pub open spec fn entity_line(text: Seq<char>, e: MessageEntity, title: Seq<char>) -> Seq<char> {
    match e.kind {
        EntityKind::TextLink { url } => "  - "@ + entity_text_of(text, e) + " ["@ + trimmed(title)
            + "]("@ + url@ + ")\n"@,
        _ => Seq::empty(),
    }
}

/// The lines for the entities `entities` of `text`, in order, where
/// `titles[i]` is the title for `entities[i]`.
pub open spec fn entity_lines(
    text: Seq<char>,
    entities: Seq<MessageEntity>,
    titles: Seq<Seq<char>>,
) -> Seq<char>
    decreases entities.len(),
{
    if entities.len() == 0 {
        Seq::empty()
    } else {
        let n = entities.len() - 1;
        entity_lines(text, entities.take(n), titles) + entity_line(
            text,
            entities[n],
            titles[n],
        )
    }
}

/// The first line of a note: the whole text as a list item.
pub open spec fn note_head(text: Seq<char>) -> Seq<char> {
    "- "@ + text + "\n"@
}

/// The markdown note for a text message.
pub open spec fn media_text_markdown(
    text: Seq<char>,
    entities: Seq<MessageEntity>,
    titles: Seq<Seq<char>>,
) -> Seq<char> {
    note_head(text) + entity_lines(text, entities, titles)
}

/// Whether every text link of `entities` covers a byte range of `text`.
pub open spec fn text_links_in_text(text: Seq<char>, entities: Seq<MessageEntity>) -> bool {
    forall|i: int|
        0 <= i < entities.len() && (#[trigger] entities[i]).kind is TextLink ==> entity_in_text(
            text,
            entities[i],
        )
}

/// For each entity of `content`, the URL whose title the note needs: the
/// target of a text link, `None` for any other entity.
pub fn link_targets(content: &MediaText) -> (res: Vec<Option<String>>)
    ensures
        res.len() == content.entities.len(),
        forall|i: int|
            0 <= i < res.len() ==> (#[trigger] res[i]).deep_view() == match content.entities[i].kind {
                EntityKind::TextLink { url } => Some(url@),
                _ => None,
            },
{
    let mut res: Vec<Option<String>> = Vec::new();
    let mut i: usize = 0;
    while i < content.entities.len()
        invariant
            i <= content.entities.len(),
            res.len() == i,
            forall|j: int|
                0 <= j < i ==> (#[trigger] res[j]).deep_view() == match content.entities[j].kind {
                    EntityKind::TextLink { url } => Some(url@),
                    _ => None,
                },
        decreases content.entities.len() - i,
    {
        match &content.entities[i].kind {
            EntityKind::TextLink { url } => res.push(Some(url.clone())),
            _ => res.push(None),
        }
        i = i + 1;
    }
    res
}

/// The markdown note for the text message `content`: the text as a list
/// item, then, for each text link, a nested item with the linked text and a
/// markdown link titled by the trimmed `titles[i]`.  `titles[i]` is the title
/// found for entity `i`; it is read only for text links.
pub fn process_media_text(content: &MediaText, titles: &Vec<String>) -> (res: String)
    requires
        titles.len() == content.entities.len(),
        text_links_in_text(content.text@, content.entities@),
    ensures
        res@ == media_text_markdown(content.text@, content.entities@, titles.deep_view()),
{
    let ghost text = content.text@;
    let ghost entities = content.entities@;
    let ghost tv = titles.deep_view();
    let mut md = String::from_str("- ");
    md.append(content.text.as_str());
    md.append("\n");
    let mut i: usize = 0;
    assert(entities.take(0) =~= Seq::<MessageEntity>::empty());
    while i < content.entities.len()
        invariant
            text == content.text@,
            entities == content.entities@,
            tv == titles.deep_view(),
            titles.len() == entities.len(),
            text_links_in_text(text, entities),
            i <= entities.len(),
            md@ == note_head(text) + entity_lines(text, entities.take(i as int), tv),
        decreases entities.len() - i,
    {
        let e = &content.entities[i];
        let ghost before = md@;
        assert(entities.take(i + 1).take(i as int) =~= entities.take(i as int));
        assert(entities.take(i + 1)[i as int] == entities[i as int]);
        match &e.kind {
            EntityKind::TextLink { url } => {
                let this_text = slice_bytes(content.text.as_str(), e.offset, e.offset + e.length);
                let title = trim(titles[i].as_str());
                md.append("  - ");
                md.append(this_text);
                md.append(" [");
                md.append(title.as_str());
                md.append("](");
                md.append(url.as_str());
                md.append(")\n");
                assert(md@ =~= before + entity_line(text, entities[i as int], tv[i as int]));
            },
            _ => {
                assert(md@ =~= before + entity_line(text, entities[i as int], tv[i as int]));
            },
        }
        i = i + 1;
    }
    assert(entities.take(entities.len() as int) =~= entities);
    md
}

proof fn lemma_entity_lines_titles(
    text: Seq<char>,
    entities: Seq<MessageEntity>,
    t1: Seq<Seq<char>>,
    t2: Seq<Seq<char>>,
)
    requires
        forall|i: int| 0 <= i < entities.len() ==> t1[i] == t2[i],
    ensures
        entity_lines(text, entities, t1) == entity_lines(text, entities, t2),
    decreases entities.len(),
{
    if entities.len() > 0 {
        let n = entities.len() - 1;
        lemma_entity_lines_titles(text, entities.take(n), t1, t2);
    }
}

/// The note for a message without entities is `- `, the text, and a newline.
pub proof fn lemma_note_without_entities(text: Seq<char>, titles: Seq<Seq<char>>)
    ensures
        media_text_markdown(text, Seq::empty(), titles) == "- "@ + text + "\n"@,
{
    assert(media_text_markdown(text, Seq::empty(), titles) =~= "- "@ + text + "\n"@);
}

/// One more entity, with its title, adds to the note exactly the line for
/// that entity: for a text link, `  - `, the text the link covers, and a
/// markdown link to its URL titled by that entity's own title, trimmed; for
/// any other entity, nothing.
pub proof fn lemma_note_one_more_entity(
    text: Seq<char>,
    entities: Seq<MessageEntity>,
    titles: Seq<Seq<char>>,
    e: MessageEntity,
    title: Seq<char>,
)
    requires
        titles.len() == entities.len(),
    ensures
        media_text_markdown(text, entities.push(e), titles.push(title)) == media_text_markdown(
            text,
            entities,
            titles,
        ) + match e.kind {
            EntityKind::TextLink { url } => "  - "@ + byte_slice(
                text,
                e.offset as int,
                e.offset + e.length,
            ) + " ["@ + trimmed(title) + "]("@ + url@ + ")\n"@,
            _ => Seq::<char>::empty(),
        },
{
    let es = entities.push(e);
    let ts = titles.push(title);
    assert(es.take(entities.len() as int) =~= entities);
    lemma_entity_lines_titles(text, entities, ts, titles);
    assert(ts[entities.len() as int] == title);
    assert(es[entities.len() as int] == e);
    assert(media_text_markdown(text, es, ts) =~= media_text_markdown(text, entities, titles)
        + entity_line(text, e, title));
}

/// A message with two text links gets its head line and then one line per
/// link, each titled by that link's own title.
pub proof fn lemma_note_two_links(
    text: Seq<char>,
    e0: MessageEntity,
    e1: MessageEntity,
    t0: Seq<char>,
    t1: Seq<char>,
    u0: String,
    u1: String,
)
    requires
        e0.kind == (EntityKind::TextLink { url: u0 }),
        e1.kind == (EntityKind::TextLink { url: u1 }),
    ensures
        media_text_markdown(text, seq![e0, e1], seq![t0, t1]) == "- "@ + text + "\n"@ + ("  - "@
            + byte_slice(text, e0.offset as int, e0.offset + e0.length) + " ["@ + trimmed(t0)
            + "]("@ + u0@ + ")\n"@) + ("  - "@ + byte_slice(
            text,
            e1.offset as int,
            e1.offset + e1.length,
        ) + " ["@ + trimmed(t1) + "]("@ + u1@ + ")\n"@),
{
    let empty_e = Seq::<MessageEntity>::empty();
    let empty_t = Seq::<Seq<char>>::empty();
    lemma_note_without_entities(text, empty_t);
    lemma_note_one_more_entity(text, empty_e, empty_t, e0, t0);
    assert(empty_e.push(e0) =~= seq![e0]);
    assert(empty_t.push(t0) =~= seq![t0]);
    lemma_note_one_more_entity(text, seq![e0], seq![t0], e1, t1);
    assert(seq![e0].push(e1) =~= seq![e0, e1]);
    assert(seq![t0].push(t1) =~= seq![t0, t1]);
    let a = "- "@ + text + "\n"@;
    let l0 = "  - "@ + byte_slice(text, e0.offset as int, e0.offset + e0.length) + " ["@ + trimmed(t0) + "]("@ + u0@ + ")\n"@;
    let l1 = "  - "@ + byte_slice(text, e1.offset as int, e1.offset + e1.length) + " ["@ + trimmed(t1) + "]("@ + u1@ + ")\n"@;
    assert(media_text_markdown(text, seq![e0, e1], seq![t0, t1]) =~= a + l0 + l1);
}

/// A note for a message without text links is its head line alone: entities
/// other than text links add nothing to the note.
pub proof fn lemma_plain_entities_note(
    text: Seq<char>,
    entities: Seq<MessageEntity>,
    titles: Seq<Seq<char>>,
)
    requires
        forall|i: int| 0 <= i < entities.len() ==> !((#[trigger] entities[i]).kind is TextLink),
    ensures
        media_text_markdown(text, entities, titles) == note_head(text),
    decreases entities.len(),
{
    if entities.len() > 0 {
        let n = entities.len() - 1;
        lemma_plain_entities_note(text, entities.take(n), titles);
        assert(entity_line(text, entities[n], titles[n]) =~= Seq::<char>::empty());
        assert(entity_lines(text, entities, titles) =~= entity_lines(text, entities.take(n), titles));
    } else {
        assert(entity_lines(text, entities, titles) =~= Seq::<char>::empty());
    }
    assert(media_text_markdown(text, entities, titles) =~= note_head(text));
}

// ---------------------------------------------------------------------------
// The link bot: one note per URL written out in the text
// ---------------------------------------------------------------------------

/// Whether the link bot writes a note for entity `e`: only for
/// URLs written out in the text.
pub fn is_url_entity(e: &MessageEntity) -> (res: bool)
    ensures
        res == e.kind is Url,
{
    match e.kind {
        EntityKind::Url => true,
        _ => false,
    }
}

/// The note that the link bot writes for the URL entity `e` of
/// `text`, whose page has the title `title`: the text before the URL and a
/// markdown link, or the link alone where the URL is the whole text.
pub open spec fn link_bot_note(text: Seq<char>, e: MessageEntity, title: Seq<char>) -> Seq<
    char,
> {
    let url = entity_text_of(text, e);
    let before = byte_slice(text, 0, e.offset as int);
    if url != text {
        "- "@ + before + " ["@ + trimmed(title) + "]("@ + url + ")\n"@
    } else {
        "- ["@ + trimmed(title) + "]("@ + url + ")\n"@
    }
}

/// The note that the link bot writes for the URL entity `e` of
/// `text`, given the title found for the URL.
pub fn link_bot_markdown(text: &str, e: &MessageEntity, title: &str) -> (res: String)
    requires
        entity_in_text(text@, *e),
    ensures
        res@ == link_bot_note(text@, *e, title@),
{
    let url = slice_bytes(text, e.offset, e.offset + e.length);
    assert(valid_byte_range(text@, 0, e.offset as int)) by {
        vstd::utf8::is_char_boundary_start_end_of_seq(encode_utf8(text@));
    }
    let before = slice_bytes(text, 0, e.offset);
    let trimmed_title = trim(title);
    let url_string = String::from_str(url);
    let text_string = String::from_str(text);
    let same = url_string == text_string;
    let mut md;
    if !same {
        md = String::from_str("- ");
        md.append(before);
        md.append(" [");
    } else {
        md = String::from_str("- [");
    }
    md.append(trimmed_title.as_str());
    md.append("](");
    md.append(url);
    md.append(")\n");
    assert(md@ =~= link_bot_note(text@, *e, title@));
    md
}

/// Whether every URL entity of `entities` covers a byte range of `text`.
pub open spec fn url_entities_in_text(text: Seq<char>, entities: Seq<MessageEntity>) -> bool {
    forall|i: int|
        0 <= i < entities.len() && (#[trigger] entities[i]).kind is Url ==> entity_in_text(
            text,
            entities[i],
        )
}

/// The notes that the link bot writes for a message: one for each URL
/// entity, in the order of the entities, where `titles[i]` is the title
/// found for entity `i`.
pub open spec fn link_bot_notes_of(
    text: Seq<char>,
    entities: Seq<MessageEntity>,
    titles: Seq<Seq<char>>,
) -> Seq<Seq<char>>
    decreases entities.len(),
{
    if entities.len() == 0 {
        Seq::empty()
    } else {
        let n = entities.len() - 1;
        let earlier = link_bot_notes_of(text, entities.take(n), titles);
        if entities[n].kind is Url {
            earlier.push(link_bot_note(text, entities[n], titles[n]))
        } else {
            earlier
        }
    }
}

proof fn lemma_link_bot_notes_titles(
    text: Seq<char>,
    entities: Seq<MessageEntity>,
    t1: Seq<Seq<char>>,
    t2: Seq<Seq<char>>,
)
    requires
        forall|i: int| 0 <= i < entities.len() ==> t1[i] == t2[i],
    ensures
        link_bot_notes_of(text, entities, t1) == link_bot_notes_of(text, entities, t2),
    decreases entities.len(),
{
    if entities.len() > 0 {
        let n = entities.len() - 1;
        lemma_link_bot_notes_titles(text, entities.take(n), t1, t2);
    }
}

/// The link bot's note for a URL entity: `- `, the text before the URL, and
/// a markdown link to the URL titled by the trimmed title; just `- ` and the
/// link where the URL is the whole text.
pub proof fn lemma_link_bot_note_format(text: Seq<char>, e: MessageEntity, title: Seq<char>)
    ensures
        byte_slice(text, e.offset as int, e.offset + e.length) != text ==> link_bot_note(
            text,
            e,
            title,
        ) == "- "@ + byte_slice(text, 0, e.offset as int) + " ["@ + trimmed(title) + "]("@
            + byte_slice(text, e.offset as int, e.offset + e.length) + ")\n"@,
        byte_slice(text, e.offset as int, e.offset + e.length) == text ==> link_bot_note(
            text,
            e,
            title,
        ) == "- ["@ + trimmed(title) + "]("@ + text + ")\n"@,
{
}

/// One more entity, with its title, adds to the link bot's notes exactly
/// one note for a URL entity, written with that entity's own title, and
/// nothing for any other entity.
pub proof fn lemma_link_bot_notes_one_more(
    text: Seq<char>,
    entities: Seq<MessageEntity>,
    titles: Seq<Seq<char>>,
    e: MessageEntity,
    title: Seq<char>,
)
    requires
        titles.len() == entities.len(),
    ensures
        e.kind is Url ==> link_bot_notes_of(text, entities.push(e), titles.push(title))
            == link_bot_notes_of(text, entities, titles).push(link_bot_note(text, e, title)),
        !(e.kind is Url) ==> link_bot_notes_of(text, entities.push(e), titles.push(title))
            == link_bot_notes_of(text, entities, titles),
        link_bot_notes_of(text, Seq::empty(), titles) == Seq::<Seq<char>>::empty(),
{
    let es = entities.push(e);
    let ts = titles.push(title);
    assert(es.take(entities.len() as int) =~= entities);
    lemma_link_bot_notes_titles(text, entities, ts, titles);
    assert(ts[entities.len() as int] == title);
    assert(es[entities.len() as int] == e);
}

/// For each entity of `content`, the URL whose title the link bot needs:
/// the text of a URL entity, `None` for any other entity.
pub fn link_bot_urls(content: &MediaText) -> (res: Vec<Option<String>>)
    requires
        url_entities_in_text(content.text@, content.entities@),
    ensures
        res.len() == content.entities.len(),
        forall|i: int|
            0 <= i < res.len() ==> (#[trigger] res[i]).deep_view() == if content.entities[i].kind is Url {
                Some(entity_text_of(content.text@, content.entities[i]))
            } else {
                None
            },
{
    let mut res: Vec<Option<String>> = Vec::new();
    let mut i: usize = 0;
    while i < content.entities.len()
        invariant
            i <= content.entities.len(),
            url_entities_in_text(content.text@, content.entities@),
            res.len() == i,
            forall|j: int|
                0 <= j < i ==> (#[trigger] res[j]).deep_view() == if content.entities[j].kind is Url {
                    Some(entity_text_of(content.text@, content.entities[j]))
                } else {
                    None
                },
        decreases content.entities.len() - i,
    {
        let e = &content.entities[i];
        if is_url_entity(e) {
            res.push(Some(entity_text(content.text.as_str(), e)));
        } else {
            res.push(None);
        }
        i = i + 1;
    }
    res
}

/// The notes that the link bot writes for the message `content`, one for
/// each URL entity in order; `titles[i]` is the title found for entity `i`
/// and is read only for URL entities.
pub fn link_bot_notes(content: &MediaText, titles: &Vec<String>) -> (res: Vec<String>)
    requires
        titles.len() == content.entities.len(),
        url_entities_in_text(content.text@, content.entities@),
    ensures
        res.deep_view() == link_bot_notes_of(
            content.text@,
            content.entities@,
            titles.deep_view(),
        ),
{
    let ghost text = content.text@;
    let ghost entities = content.entities@;
    let ghost tv = titles.deep_view();
    let mut res: Vec<String> = Vec::new();
    let mut i: usize = 0;
    assert(res.deep_view() =~= link_bot_notes_of(text, entities.take(0), tv));
    while i < content.entities.len()
        invariant
            text == content.text@,
            entities == content.entities@,
            tv == titles.deep_view(),
            titles.len() == entities.len(),
            url_entities_in_text(text, entities),
            i <= entities.len(),
            res.deep_view() == link_bot_notes_of(text, entities.take(i as int), tv),
        decreases entities.len() - i,
    {
        let e = &content.entities[i];
        assert(entities.take(i + 1).take(i as int) =~= entities.take(i as int));
        assert(entities.take(i + 1)[i as int] == entities[i as int]);
        if is_url_entity(e) {
            let note = link_bot_markdown(content.text.as_str(), e, titles[i].as_str());
            let ghost before = res.deep_view();
            res.push(note);
            assert(res.deep_view() =~= before.push(link_bot_note(text, entities[i as int], tv[i as int])));
        }
        i = i + 1;
    }
    assert(entities.take(entities.len() as int) =~= entities);
    res
}

// ---------------------------------------------------------------------------
// Photos
// ---------------------------------------------------------------------------

/// What follows the last `/` of `path`, or all of `path` where it has none:
/// the last item of `path.split('/')`.
pub open spec fn last_path_segment(path: Seq<char>) -> Seq<char>
    decreases path.len(),
{
    if path.len() == 0 {
        path
    } else if path.last() == '/' {
        Seq::empty()
    } else {
        last_path_segment(path.drop_last()).push(path.last())
    }
}

/// The directory that received photos are saved in.
pub open spec fn photo_dir() -> Seq<char> {
    "./tmp/tg/"@
}

/// The local path for a photo that the Telegram server keeps at
/// `remote_path`: its file name under `./tmp/tg/`.
pub fn photo_file_path(remote_path: &str) -> (res: String)
    ensures
        res@ == photo_dir() + last_path_segment(remote_path@),
{
    let n = remote_path.unicode_len();
    let mut start: usize = n;
    assert(remote_path@.subrange(0, n as int) =~= remote_path@);
    assert(remote_path@.subrange(n as int, n as int) =~= Seq::<char>::empty());
    while start > 0 && remote_path.get_char(start - 1) != '/'
        invariant
            n == remote_path@.len(),
            start <= n,
            last_path_segment(remote_path@) == last_path_segment(
                remote_path@.subrange(0, start as int),
            ) + remote_path@.subrange(start as int, n as int),
        decreases start,
    {
        let ghost pre = remote_path@.subrange(0, start as int);
        assert(pre.drop_last() =~= remote_path@.subrange(0, start - 1));
        assert(remote_path@.subrange(start - 1, n as int) =~= seq![pre.last()]
            + remote_path@.subrange(start as int, n as int));
        start = start - 1;
    }
    proof {
        let pre = remote_path@.subrange(0, start as int);
        if start > 0 {
            assert(last_path_segment(pre) =~= Seq::<char>::empty());
        } else {
            assert(last_path_segment(pre) =~= Seq::<char>::empty());
        }
        assert(remote_path@.subrange(0, n as int) =~= remote_path@);
    }
    let mut res = String::from_str("./tmp/tg/");
    res.append(remote_path.substring_char(start, n));
    res
}

/// A photo is saved as `./tmp/tg/` followed by the last segment of its
/// remote path.
pub proof fn lemma_photo_path_text(remote_path: Seq<char>)
    ensures
        photo_dir() + last_path_segment(remote_path) == "./tmp/tg/"@ + last_path_segment(
            remote_path,
        ),
        !remote_path.contains('/') ==> last_path_segment(remote_path) == remote_path,
    decreases remote_path.len(),
{
    if remote_path.len() > 0 && !remote_path.contains('/') {
        let pre = remote_path.drop_last();
        if pre.contains('/') {
            let i = choose|i: int| 0 <= i < pre.len() && pre[i] == '/';
            assert(remote_path[i] == '/');
        }
        assert(remote_path.last() != '/') by {
            if remote_path.last() == '/' {
                assert(remote_path[remote_path.len() - 1] == '/');
            }
        }
        lemma_photo_path_text(pre);
        assert(pre.push(remote_path.last()) =~= remote_path);
    }
}

/// The note written for a photo saved at `path`: a markdown image.
pub fn photo_markdown(path: &str) -> (res: String)
    ensures
        res@ == "- !["@ + path@ + "]("@ + path@ + ")\n"@,
{
    let mut md = String::from_str("- ![");
    md.append(path);
    md.append("](");
    md.append(path);
    md.append(")\n");
    md
}

/// The file name kept for a photo has no `/` and ends its remote path, so a
/// saved photo lands directly in the photo directory, under the remote name.
pub proof fn lemma_photo_stays_in_dir(remote_path: Seq<char>)
    ensures
        !last_path_segment(remote_path).contains('/'),
        remote_path.len() >= last_path_segment(remote_path).len(),
        remote_path.subrange(
            remote_path.len() - last_path_segment(remote_path).len(),
            remote_path.len() as int,
        ) == last_path_segment(remote_path),
    decreases remote_path.len(),
{
    if remote_path.len() == 0 {
        assert(remote_path.subrange(0, 0) =~= remote_path);
    } else if remote_path.last() == '/' {
        assert(remote_path.subrange(remote_path.len() as int, remote_path.len() as int)
            =~= Seq::<char>::empty());
    } else {
        let pre = remote_path.drop_last();
        lemma_photo_stays_in_dir(pre);
        let seg = last_path_segment(pre);
        assert(remote_path.subrange(
            remote_path.len() - seg.len() - 1,
            remote_path.len() as int,
        ) =~= pre.subrange(pre.len() - seg.len(), pre.len() as int).push(remote_path.last()));
        assert forall|i: int| 0 <= i < seg.push(remote_path.last()).len() implies seg.push(
            remote_path.last(),
        )[i] != '/' by {
            if i < seg.len() {
                assert(!seg.contains('/'));
                if seg[i] == '/' {
                    assert(seg.contains('/'));
                }
            }
        }
    }
}

} // verus!
