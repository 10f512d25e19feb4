//! The namespace materializer: the pure transformation of one namespace
//! snapshot into the file name and the exact byte content to write.
//!
//! The namespace name is canonicalized into a filename; the filename's
//! suffix selects the format. A `.properties` namespace is written as an
//! INI document of its key/value entries; any other namespace is treated
//! as a blob and written as the UTF-8 bytes of its `"content"` entry, or
//! as no bytes when that entry is absent.

use vstd::prelude::*;
use vstd::utf8::encode_utf8;

verus! {

/// Whether `suffix` is a suffix of `s`.
pub open spec fn is_suffix_of(suffix: Seq<char>, s: Seq<char>) -> bool {
    &&& suffix.len() <= s.len()
    &&& s.subrange(s.len() - suffix.len(), s.len() as int) == suffix
}

/// Whether the namespace name already carries one of the file extensions
/// the remote service's naming convention recognizes.
pub open spec fn has_known_extension(s: Seq<char>) -> bool {
    ||| is_suffix_of(".properties"@, s)
    ||| is_suffix_of(".xml"@, s)
    ||| is_suffix_of(".json"@, s)
    ||| is_suffix_of(".yaml"@, s)
    ||| is_suffix_of(".yml"@, s)
    ||| is_suffix_of(".txt"@, s)
}

/// The filesystem-safe filename of a namespace: the name itself when it
/// already carries a recognized extension, else the name with
/// `.properties` appended.
pub open spec fn canonical_of(s: Seq<char>) -> Seq<char> {
    if has_known_extension(s) {
        s
    } else {
        s + ".properties"@
    }
}

/// The characters of a sequence of key/value string pairs.
pub open spec fn pairs_view(entries: Seq<(String, String)>) -> Seq<(Seq<char>, Seq<char>)> {
    entries.map(|i: int, p: (String, String)| (p.0@, p.1@))
}

/// The value of the first entry whose key is `content`, if any.
pub open spec fn first_content_value(entries: Seq<(Seq<char>, Seq<char>)>) -> Option<Seq<char>>
    decreases entries.len(),
{
    if entries.len() == 0 {
        None
    } else if entries[0].0 == "content"@ {
        Some(entries[0].1)
    } else {
        first_content_value(entries.skip(1))
    }
}

/// The bytes of a namespace treated as a blob: the UTF-8 encoding of its
/// `content` entry, or no bytes when that entry is absent.
pub open spec fn blob_bytes(entries: Seq<(Seq<char>, Seq<char>)>) -> Seq<u8> {
    match first_content_value(entries) {
        Some(value) => encode_utf8(value),
        None => Seq::empty(),
    }
}

/// The INI document that serializing the entries of the single unnamed
/// section produces; a function of the entry sequence alone.
pub uninterp spec fn ini_doc_of(entries: Seq<(Seq<char>, Seq<char>)>) -> Seq<u8>;

/// The bytes materialized for a namespace: the INI document of its entries
/// when its canonical filename ends in `.properties`, else its blob bytes.
pub open spec fn materialized_bytes(
    namespace: Seq<char>,
    entries: Seq<(Seq<char>, Seq<char>)>,
) -> Seq<u8> {
    if is_suffix_of(".properties"@, canonical_of(namespace)) {
        ini_doc_of(entries)
    } else {
        blob_bytes(entries)
    }
}

/// Relies on `apollo_client::utils::canonicalize_namespace`: a namespace
/// that already ends in `.properties`, `.xml`, `.json`, `.yaml`, `.yml` or
/// `.txt` is returned unchanged; any other has `.properties` appended.
#[verifier::external_body]
fn canonicalize_namespace(namespace: &str) -> (r: String)
    ensures
        r@ == canonical_of(namespace@),
{
    apollo_client::utils::canonicalize_namespace(namespace)
}

/// Relies on `str::ends_with`: true exactly when the pattern's characters
/// are a suffix of the string's characters.
#[verifier::external_body]
fn str_ends_with(s: &str, suffix: &str) -> (r: bool)
    ensures
        r == is_suffix_of(suffix@, s@),
{
    s.ends_with(suffix)
}

/// Relies on `ini::Ini`: a document holding the entries in its unnamed
/// section, built with `with_section` and `set` and serialized by
/// `write_to`, is a function of the entry sequence alone, and no entries
/// serialize to no bytes.
#[verifier::external_body]
fn ini_serialize(entries: &Vec<(String, String)>) -> (r: Vec<u8>)
    ensures
        r@ == ini_doc_of(pairs_view(entries@)),
        entries@.len() == 0 ==> r@.len() == 0,
{
    let mut document = ini::Ini::new();
    for (key, value) in entries.iter() {
        document.with_section(None::<String>).set(key.clone(), value.clone());
    }
    let mut out: Vec<u8> = Vec::new();
    document.write_to(&mut out).expect("writing to a Vec cannot fail");
    out
}

proof fn lemma_first_content_at(entries: Seq<(Seq<char>, Seq<char>)>, i: int)
    requires
        0 <= i < entries.len(),
        forall|j: int| 0 <= j < i ==> (#[trigger] entries[j]).0 != "content"@,
        entries[i].0 == "content"@,
    ensures
        first_content_value(entries) == Some(entries[i].1),
    decreases i,
{
    if i > 0 {
        assert forall|j: int| 0 <= j < i - 1 implies (#[trigger] entries.skip(1)[j]).0
            != "content"@ by {
            assert(entries.skip(1)[j] == entries[j + 1]);
        }
        lemma_first_content_at(entries.skip(1), i - 1);
        assert(entries.skip(1)[i - 1] == entries[i]);
    }
}

proof fn lemma_first_content_none(entries: Seq<(Seq<char>, Seq<char>)>)
    requires
        forall|j: int| 0 <= j < entries.len() ==> (#[trigger] entries[j]).0 != "content"@,
    ensures
        first_content_value(entries) is None,
    decreases entries.len(),
{
    if entries.len() > 0 {
        assert forall|j: int| 0 <= j < entries.len() - 1 implies (#[trigger] entries.skip(1)[j]).0
            != "content"@ by {
            assert(entries.skip(1)[j] == entries[j + 1]);
        }
        lemma_first_content_none(entries.skip(1));
    }
}

/// The blob branch: the UTF-8 bytes of the first `content` entry, or no
/// bytes when none exists.
fn lookup_content(configurations: &Vec<(String, String)>) -> (r: Vec<u8>)
    ensures
        r@ == blob_bytes(pairs_view(configurations@)),
{
    let needle: String = "content".to_owned();
    let n = configurations.len();
    let mut i: usize = 0;
    while i < n
        invariant
            n == configurations@.len(),
            i <= n,
            needle@ == "content"@,
            forall|j: int| 0 <= j < i ==> (#[trigger] pairs_view(configurations@)[j]).0
                != "content"@,
        decreases n - i,
    {
        if configurations[i].0 == needle {
            let bytes = vstd::slice::slice_to_vec(configurations[i].1.as_str().as_bytes());
            proof {
                lemma_first_content_at(pairs_view(configurations@), i as int);
            }
            return bytes;
        }
        i += 1;
    }
    proof {
        lemma_first_content_none(pairs_view(configurations@));
    }
    Vec::new()
}

/// Materializes one namespace snapshot: the canonical filename and the
/// exact bytes to write for it, a function of the namespace name and the
/// configuration entries alone. A map that does not fit the format
/// degrades to empty output; the function has no failure mode.
pub fn materialize(namespace_name: &str, configurations: &Vec<(String, String)>) -> (r: (
    String,
    Vec<u8>,
))
    ensures
        r.0@ == canonical_of(namespace_name@),
        r.1@ == materialized_bytes(namespace_name@, pairs_view(configurations@)),
{
    let filename = canonicalize_namespace(namespace_name);
    let bytes = if str_ends_with(filename.as_str(), ".properties") {
        ini_serialize(configurations)
    } else {
        lookup_content(configurations)
    };
    (filename, bytes)
}

/// Determinism: the materialized filename and bytes are a function of the
/// namespace name and the configuration entries alone, so materializing
/// the same snapshot twice yields identical output.
pub proof fn lemma_materialize_deterministic(
    namespace: Seq<char>,
    entries: Seq<(Seq<char>, Seq<char>)>,
    first: (Seq<char>, Seq<u8>),
    second: (Seq<char>, Seq<u8>),
)
    requires
        first.0 == canonical_of(namespace),
        first.1 == materialized_bytes(namespace, entries),
        second.0 == canonical_of(namespace),
        second.1 == materialized_bytes(namespace, entries),
    ensures
        first == second,
{
}

/// Format selection: a namespace whose canonical filename ends in
/// `.properties` is materialized as the INI document of its entries; any
/// other namespace is materialized as the UTF-8 bytes of its `content`
/// entry, or as no bytes when that entry is absent.
pub proof fn lemma_format_selection(namespace: Seq<char>, entries: Seq<(Seq<char>, Seq<char>)>)
    ensures
        is_suffix_of(".properties"@, canonical_of(namespace)) ==> materialized_bytes(
            namespace,
            entries,
        ) == ini_doc_of(entries),
        !is_suffix_of(".properties"@, canonical_of(namespace)) ==> materialized_bytes(
            namespace,
            entries,
        ) == blob_bytes(entries),
        first_content_value(entries) is None ==> blob_bytes(entries) == Seq::<u8>::empty(),
        first_content_value(entries) matches Some(value) ==> blob_bytes(entries) == encode_utf8(
            value,
        ),
{
}

/// A namespace without a recognized extension canonicalizes to a name
/// ending in `.properties` and is therefore materialized in the INI
/// format; one that already carries a recognized extension keeps its name.
pub proof fn lemma_default_extension(namespace: Seq<char>)
    ensures
        !has_known_extension(namespace) ==> is_suffix_of(
            ".properties"@,
            canonical_of(namespace),
        ),
        has_known_extension(namespace) ==> canonical_of(namespace) == namespace,
{
    if !has_known_extension(namespace) {
        let ext = ".properties"@;
        let appended = namespace + ext;
        assert(appended.subrange(appended.len() - ext.len(), appended.len() as int) =~= ext);
    }
}

} // verus!
