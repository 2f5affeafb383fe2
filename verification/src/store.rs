//! A ghost model of the file store the handlers write through: a map from
//! path text to file content, with a missing key standing for an absent
//! file. The laws of whole-file replacement are proved against it; the
//! process that hosts the handlers performs each planned write and read with
//! these semantics.

use vstd::prelude::*;

use crate::json::json_text_of;

verus! {

/// The store after writing `text` at `path`: prior content at that path is
/// replaced wholesale, the file is created if absent, and every other path
/// is untouched.
pub open spec fn store_write(
    fs: Map<Seq<char>, Seq<char>>,
    path: Seq<char>,
    text: Seq<char>,
) -> Map<Seq<char>, Seq<char>> {
    fs.insert(path, text)
}

/// The content read at `path`: `None` where no file exists there.
pub open spec fn store_read(fs: Map<Seq<char>, Seq<char>>, path: Seq<char>) -> Option<Seq<char>> {
    if fs.dom().contains(path) {
        Some(fs[path])
    } else {
        None
    }
}

/// Law: writing text at a path and then reading that path back returns
/// exactly the written text.
pub proof fn lemma_write_then_read(fs: Map<Seq<char>, Seq<char>>, path: Seq<char>, text: Seq<char>)
    ensures
        store_read(store_write(fs, path, text), path) == Some(text),
{
}

/// Law: a write leaves the content at every other path unchanged.
pub proof fn lemma_write_preserves_others(
    fs: Map<Seq<char>, Seq<char>>,
    path: Seq<char>,
    text: Seq<char>,
    other: Seq<char>,
)
    requires
        other != path,
    ensures
        store_read(store_write(fs, path, text), other) == store_read(fs, other),
{
}

/// Law: writing the same text at the same path twice leaves the store
/// exactly as one write does; in particular the second write changes
/// nothing a later read could see.
pub proof fn lemma_write_idempotent(fs: Map<Seq<char>, Seq<char>>, path: Seq<char>, text: Seq<char>)
    ensures
        store_write(store_write(fs, path, text), path, text) == store_write(fs, path, text),
{
    assert(store_write(store_write(fs, path, text), path, text) =~= store_write(fs, path, text));
}

/// Law: reading a path where no file exists yields no content — never a
/// default or empty value.
pub proof fn lemma_read_absent(fs: Map<Seq<char>, Seq<char>>, path: Seq<char>)
    requires
        !fs.dom().contains(path),
    ensures
        store_read(fs, path) is None,
{
}

/// Law: after a configuration write, the stored text at the configuration
/// path is exactly the rendering of the written document; reading it back
/// therefore hands the parser that rendering, which parses to a value equal
/// to the document whenever the parser accepts it at all.
pub proof fn lemma_config_write_then_read(
    fs: Map<Seq<char>, Seq<char>>,
    config_path: Seq<char>,
    value: serde_json::Value,
)
    ensures
        store_read(store_write(fs, config_path, json_text_of(value)), config_path) == Some(
            json_text_of(value),
        ),
{
}

} // verus!
