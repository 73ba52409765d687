//! Loader (preloader / DA) selection: a chip name or SoC identifier is mapped
//! to one of the embedded preloader images. Add entries to the table below as
//! more chips are supported.

use vstd::prelude::*;
use crate::error::Error;
use crate::paths::{FsPath, is_plain_component, loader_dir, spec_base_dir};
use crate::text::{
    ascii_lowered,
    ascii_uppered,
    contains_str,
    is_ascii_text,
    is_substring,
    to_lowercase,
    unicode_lowercase,
};

verus! {

/// The preloader image for KL5 / MT6768, held in the source as a byte array.
/// These 19 bytes (the ASCII text `preloader_kl5_xk678`) are a stand-in: the
/// image proper is not part of this source tree, and putting it here means
/// replacing this array.
pub const PRELOADER_KL5_XK678: [u8; 19] = [
    0x70, 0x72, 0x65, 0x6c, 0x6f, 0x61, 0x64, 0x65, 0x72, 0x5f, 0x6b, 0x6c, 0x35, 0x5f, 0x78, 0x6b,
    0x36, 0x37, 0x38,
];

/// Number of entries in the loader table.
pub const LOADER_COUNT: usize = 2;

/// The lower-case chip-name fragments of the table, in the order they are tried.
pub open spec fn loader_keys() -> Seq<Seq<char>> {
    seq!["kl5"@, "mt6768"@]
}

/// The canonical file name of each table entry's loader.
pub open spec fn loader_names() -> Seq<Seq<char>> {
    seq!["preloader_kl5_xk678.bin"@, "preloader_kl5_xk678.bin"@]
}

/// The image of each table entry.
pub open spec fn loader_images() -> Seq<Seq<u8>> {
    seq![PRELOADER_KL5_XK678@, PRELOADER_KL5_XK678@]
}

/// Entry `i` of the table: key fragment, canonical name, image.
pub fn loader_entry(i: usize) -> (r: (&'static str, &'static str, &'static [u8]))
    requires
        i < LOADER_COUNT,
    ensures
        r.0@ == loader_keys()[i as int],
        r.1@ == loader_names()[i as int],
        r.2@ == loader_images()[i as int],
{
    match i {
        0 => ("kl5", "preloader_kl5_xk678.bin", &PRELOADER_KL5_XK678),
        _ => ("mt6768", "preloader_kl5_xk678.bin", &PRELOADER_KL5_XK678),
    }
}

/// The first table entry, from `i` on, whose key occurs in `text`.
pub open spec fn first_match_from(text: Seq<char>, i: int) -> Option<int>
    decreases loader_keys().len() - i,
{
    if i < 0 || i >= loader_keys().len() {
        None
    } else if is_substring(loader_keys()[i], text) {
        Some(i)
    } else {
        first_match_from(text, i + 1)
    }
}

/// The table entry that a chip identifier resolves to: the first whose key
/// occurs in the identifier's lower-case form.
pub open spec fn resolved_entry(chip: Seq<char>) -> Option<int> {
    first_match_from(unicode_lowercase(chip), 0)
}

proof fn lemma_first_match_from(text: Seq<char>, i: int)
    requires
        0 <= i <= loader_keys().len(),
    ensures
        match first_match_from(text, i) {
            Some(k) => i <= k < loader_keys().len() && is_substring(loader_keys()[k], text)
                && forall|j: int| i <= j < k ==> !is_substring(#[trigger] loader_keys()[j], text),
            None => forall|j: int|
                i <= j < loader_keys().len() ==> !is_substring(#[trigger] loader_keys()[j], text),
        },
    decreases loader_keys().len() - i,
{
    if i < loader_keys().len() && !is_substring(loader_keys()[i], text) {
        lemma_first_match_from(text, i + 1);
    }
}

/// A chip resolves to the first table entry whose key occurs in the chip's
/// lower-case form, and to none exactly when no key occurs there.
pub proof fn lemma_resolution_is_first_key_match(chip: Seq<char>)
    ensures
        match resolved_entry(chip) {
            Some(k) => 0 <= k < loader_keys().len() && is_substring(
                loader_keys()[k],
                unicode_lowercase(chip),
            ) && forall|j: int|
                0 <= j < k ==> !is_substring(#[trigger] loader_keys()[j], unicode_lowercase(chip)),
            None => forall|j: int|
                0 <= j < loader_keys().len() ==> !is_substring(
                    #[trigger] loader_keys()[j],
                    unicode_lowercase(chip),
                ),
        },
{
    lemma_first_match_from(unicode_lowercase(chip), 0);
}

/// Resolution is case-insensitive: identifiers with the same lower-case form
/// resolve to the same loader (or both to none).
pub proof fn lemma_resolution_ignores_case(a: Seq<char>, b: Seq<char>)
    requires
        unicode_lowercase(a) == unicode_lowercase(b),
    ensures
        resolved_entry(a) == resolved_entry(b),
{
}

/// Every chip the table knows (KL5 and MT6768 alike) is served by
/// `preloader_kl5_xk678.bin`.
pub proof fn lemma_known_chips_use_kl5_preloader(chip: Seq<char>)
    ensures
        resolved_entry(chip) matches Some(k) ==> loader_names()[k] == "preloader_kl5_xk678.bin"@,
{
    lemma_resolution_is_first_key_match(chip);
}

/// The table entry that an ASCII-only chip identifier resolves to: the first
/// whose key occurs in the identifier's ASCII lower-case form.
pub open spec fn ascii_resolved_entry(chip: Seq<char>) -> Option<int> {
    first_match_from(ascii_lowered(chip), 0)
}

/// A key that occurs in the text makes the search succeed, at that key or at
/// an earlier one.
proof fn lemma_occurring_key_is_found(text: Seq<char>, k: int)
    requires
        0 <= k < loader_keys().len(),
        is_substring(loader_keys()[k], text),
    ensures
        first_match_from(text, 0) matches Some(j) && 0 <= j <= k,
{
    lemma_first_match_from(text, 0);
}

/// For ASCII-only identifiers, resolution ignores case: an identifier, its
/// ASCII upper-case form and its ASCII lower-case form resolve to the same
/// entry (or all to none). `resolve_loader` resolves ASCII-only identifiers
/// by `ascii_resolved_entry`.
pub proof fn lemma_ascii_resolution_ignores_case(chip: Seq<char>)
    requires
        is_ascii_text(chip),
    ensures
        is_ascii_text(ascii_uppered(chip)),
        is_ascii_text(ascii_lowered(chip)),
        ascii_resolved_entry(ascii_uppered(chip)) == ascii_resolved_entry(chip),
        ascii_resolved_entry(ascii_lowered(chip)) == ascii_resolved_entry(chip),
{
    assert forall|i: int| 0 <= i < chip.len() implies (#[trigger] ascii_uppered(chip)[i] as u32)
        < 128 && (ascii_lowered(chip)[i] as u32) < 128 by {
        assert((chip[i] as u32) < 128);
    }
    assert(ascii_lowered(ascii_uppered(chip)) =~= ascii_lowered(chip));
    assert(ascii_lowered(ascii_lowered(chip)) =~= ascii_lowered(chip));
}

/// Keys are matched as fragments: an ASCII-only identifier that resolves
/// still resolves, to a loader of the same name and image, with any ASCII
/// text added before and after it.
pub proof fn lemma_fragment_match_survives_surrounding_text(
    prefix: Seq<char>,
    chip: Seq<char>,
    suffix: Seq<char>,
)
    requires
        is_ascii_text(prefix),
        is_ascii_text(chip),
        is_ascii_text(suffix),
        ascii_resolved_entry(chip) is Some,
    ensures
        is_ascii_text(prefix + chip + suffix),
        ascii_resolved_entry(prefix + chip + suffix) matches Some(j) && loader_names()[j]
            == loader_names()[ascii_resolved_entry(chip)->0] && loader_images()[j]
            == loader_images()[ascii_resolved_entry(chip)->0],
{
    let whole = prefix + chip + suffix;
    assert forall|i: int| 0 <= i < whole.len() implies (#[trigger] whole[i] as u32) < 128 by {
        if i < prefix.len() {
            assert(whole[i] == prefix[i]);
        } else if i < prefix.len() + chip.len() {
            assert(whole[i] == chip[i - prefix.len()]);
        } else {
            assert(whole[i] == suffix[i - prefix.len() - chip.len()]);
        }
    }
    let lc = ascii_lowered(chip);
    let lw = ascii_lowered(whole);
    assert(lw =~= ascii_lowered(prefix) + lc + ascii_lowered(suffix));
    lemma_first_match_from(lc, 0);
    let k = ascii_resolved_entry(chip)->0;
    let key = loader_keys()[k];
    let i = choose|i: int|
        0 <= i <= lc.len() - key.len() && #[trigger] lc.subrange(i, i + key.len()) == key;
    let at = prefix.len() + i;
    assert(lw.subrange(at, at + key.len()) =~= lc.subrange(i, i + key.len()));
    assert(is_substring(key, lw));
    lemma_occurring_key_is_found(lw, k);
}

/// Every loader's name is a plain file name, so a written loader stays in the
/// loaders directory.
pub proof fn lemma_loader_names_are_plain()
    ensures
        forall|k: int| 0 <= k < loader_names().len() ==> is_plain_component(
            #[trigger] loader_names()[k],
        ),
{
    reveal_strlit("preloader_kl5_xk678.bin");
    let n = "preloader_kl5_xk678.bin"@;
    assert(n.len() == 23);
    assert(n != seq!['.']);
    assert(n != seq!['.', '.']);
}

/// The chips the table knows are exactly those whose lower-case form holds
/// the fragment `kl5` or the fragment `mt6768`; `kl5` is tried first, and
/// every known chip gets `preloader_kl5_xk678.bin` with the KL5 image.
pub proof fn lemma_known_fragments(text: Seq<char>)
    ensures
        first_match_from(text, 0) is Some <==> (is_substring("kl5"@, text) || is_substring(
            "mt6768"@,
            text,
        )),
        first_match_from(text, 0) == Some(0int) <==> is_substring("kl5"@, text),
        first_match_from(text, 0) == Some(1int) <==> (!is_substring("kl5"@, text) && is_substring(
            "mt6768"@,
            text,
        )),
        first_match_from(text, 0) matches Some(k) ==> loader_names()[k]
            == "preloader_kl5_xk678.bin"@ && loader_images()[k] == PRELOADER_KL5_XK678@,
{
    reveal_with_fuel(first_match_from, 3);
    assert(loader_keys()[0] == "kl5"@);
    assert(loader_keys()[1] == "mt6768"@);
    assert(loader_keys().len() == 2);
}

/// The first table entry whose key occurs in the (already lower-cased) text.
pub fn match_loader(lower: &str) -> (r: Option<usize>)
    ensures
        match r {
            Some(k) => k < LOADER_COUNT && first_match_from(lower@, 0) == Some(k as int),
            None => first_match_from(lower@, 0) is None,
        },
        r is Some <==> (is_substring("kl5"@, lower@) || is_substring("mt6768"@, lower@)),
        r == Some(0usize) <==> is_substring("kl5"@, lower@),
{
    proof {
        lemma_known_fragments(lower@);
    }
    let mut i: usize = 0;
    while i < LOADER_COUNT
        invariant
            i <= LOADER_COUNT,
            first_match_from(lower@, 0) == first_match_from(lower@, i as int),
        decreases LOADER_COUNT - i,
    {
        let (key, _name, _image) = loader_entry(i);
        if contains_str(lower, key) {
            return Some(i);
        }
        i = i + 1;
    }
    None
}

/// Resolve a chip identifier (case-insensitive) to the canonical name and
/// bytes of its embedded loader.
///
/// Returns `Err(Error::LoaderNotFound(chip))` when no mapping exists.
pub fn resolve_loader(chip: &str) -> (r: Result<(&'static str, &'static [u8]), Error>)
    ensures
        match resolved_entry(chip@) {
            Some(k) => r matches Ok((name, image)) && name@ == loader_names()[k] && image@
                == loader_images()[k],
            None => r matches Err(Error::LoaderNotFound(c)) && c@ == chip@,
        },
        is_ascii_text(chip@) ==> resolved_entry(chip@) == ascii_resolved_entry(chip@),
        r is Ok <==> (is_substring("kl5"@, unicode_lowercase(chip@)) || is_substring(
            "mt6768"@,
            unicode_lowercase(chip@),
        )),
        is_ascii_text(chip@) ==> (r is Ok <==> (is_substring("kl5"@, ascii_lowered(chip@))
            || is_substring("mt6768"@, ascii_lowered(chip@)))),
        r matches Ok((name, image)) ==> name@ == "preloader_kl5_xk678.bin"@ && image@
            == PRELOADER_KL5_XK678@,
        r matches Err(e) ==> (e matches Error::LoaderNotFound(c) && c@ == chip@),
{
    proof {
        lemma_known_fragments(unicode_lowercase(chip@));
        lemma_known_fragments(ascii_lowered(chip@));
    }
    let lower = to_lowercase(chip);
    match match_loader(lower.as_str()) {
        Some(k) => {
            let (_key, name, image) = loader_entry(k);
            Ok((name, image))
        },
        None => Err(Error::LoaderNotFound(String::from_str(chip))),
    }
}

/// Where a chip's loader goes on disk, and what is written there.
#[derive(Debug)]
pub struct LoaderFile {
    /// The directory to create first.
    pub dir: FsPath,
    /// The file to write.
    pub path: FsPath,
    /// The bytes to write.
    pub image: &'static [u8],
}

/// The target of `write_loader_to_temp`: the loader for `chip` is written to
/// `<base_dir>/loaders/<canonical name>`.
pub fn loader_file(chip: &str, temp_root: &str) -> (r: Result<LoaderFile, Error>)
    ensures
        match resolved_entry(chip@) {
            Some(k) => r matches Ok(f) && f.dir@ == (temp_root@, spec_base_dir(temp_root@).1.push(
                "loaders"@,
            )) && f.path@ == (temp_root@, spec_base_dir(temp_root@).1.push("loaders"@).push(
                loader_names()[k],
            )) && f.image@ == loader_images()[k],
            None => r matches Err(Error::LoaderNotFound(c)) && c@ == chip@,
        },
{
    let (name, image) = resolve_loader(chip)?;
    let dir = loader_dir(temp_root);
    let path = loader_dir(temp_root).join(name);
    Ok(LoaderFile { dir, path, image })
}

} // verus!
