//! Reducing a window's identity properties (its title and class) to the
//! label a disclosure rule lets leave the authority.
//!
//! Titles and classes are the authority's own; only what a rule permits is
//! handed on. `ClassOnly` never carries title text, and a surface no rule
//! speaks for discloses nothing.
use vstd::prelude::*;
use vstd::utf8::{decode_utf8, encode_scalar, encode_utf8, valid_utf8};

use crate::authority_ids::{NamespaceId, SurfaceId};
use crate::property::{copy_bytes, PropertyKey, PropertyValue, XAtom, XPropertyRecord, XPropertyTable};
use crate::resource::XResourceId;
use crate::window_hints::{is_named, is_named_atom};

verus! {

broadcast use vstd::string::axiom_spec_iter, vstd::utf8::char_is_scalar;

/// The longest label, in UTF-8 bytes, that is handed on whole.
pub const MAX_CHROME_LABEL_LEN: usize = 256;

/// The characters of `bytes` read as Latin-1: each byte is the code point of
/// its own value.
pub open spec fn latin1(bytes: Seq<u8>) -> Seq<char> {
    Seq::new(bytes.len(), |i: int| bytes[i] as char)
}

/// Whether `c` is a control character: general category Cc, that is
/// U+0000 to U+001F and U+007F to U+009F.
pub open spec fn is_control_char(c: char) -> bool {
    (c as u32) <= 0x1F || (0x7F <= (c as u32) && (c as u32) <= 0x9F)
}

fn is_control(c: char) -> (control: bool)
    ensures
        control == is_control_char(c),
{
    let v = c as u32;
    v <= 0x1F || (0x7F <= v && v <= 0x9F)
}

/// The number of bytes `c` takes in UTF-8.
pub open spec fn utf8_width(c: char) -> int {
    encode_scalar(c as u32).len() as int
}

fn char_width(c: char) -> (width: usize)
    ensures
        width == utf8_width(c),
        1 <= width <= 4,
{
    let v = c as u32;
    if v < 0x80 {
        1
    } else if v < 0x800 {
        2
    } else if v < 0x10000 {
        3
    } else {
        4
    }
}

/// The characters of `text` as a vector.
fn chars_of(text: &String) -> (chars: Vec<char>)
    ensures
        chars@ == text@,
{
    let mut out: Vec<char> = Vec::new();
    for c in it: text.as_str().chars()
        invariant
            out@ == it.seq().take(it.index() as int),
    {
        out.push(c);
    }
    out
}

/// Decodes `bytes` as UTF-8, refusing any byte sequence that is not valid
/// UTF-8: a call of `String::from_utf8`. It claims, as std documents, that
/// the call succeeds exactly on valid UTF-8 and then holds the characters
/// the bytes encode.
#[verifier::external_body]
fn string_from_utf8(bytes: Vec<u8>) -> (text: Option<String>)
    ensures
        text is Some <==> valid_utf8(bytes@),
        text matches Some(s) ==> s@ == decode_utf8(bytes@),
{
    String::from_utf8(bytes).ok()
}

/// Appends `c` to `text`: a call of `String::push`, which std documents as
/// appending the character to the end of the string.
#[verifier::external_body]
fn push_char(text: &mut String, c: char)
    ensures
        final(text)@ == old(text)@.push(c),
{
    text.push(c);
}

/// A string holding the characters of `chars`.
fn string_of(chars: &Vec<char>) -> (text: String)
    ensures
        text@ == chars@,
{
    let mut text = String::new();
    let mut i: usize = 0;
    while i < chars.len()
        invariant
            i <= chars@.len(),
            text@ == chars@.take(i as int),
        decreases chars@.len() - i,
    {
        push_char(&mut text, chars[i]);
        assert(chars@.take(i + 1) == chars@.take(i as int).push(chars@[i as int]));
        i = i + 1;
    }
    assert(chars@.take(chars@.len() as int) == chars@);
    text
}

fn latin1_chars(bytes: &Vec<u8>) -> (chars: Vec<char>)
    ensures
        chars@ == latin1(bytes@),
{
    let mut out: Vec<char> = Vec::new();
    let mut i: usize = 0;
    while i < bytes.len()
        invariant
            i <= bytes@.len(),
            out@ == latin1(bytes@.take(i as int)),
        decreases bytes@.len() - i,
    {
        out.push(bytes[i] as char);
        assert(latin1(bytes@.take(i + 1)) == latin1(bytes@.take(i as int)).push(bytes@[i as int] as char));
        i = i + 1;
    }
    assert(bytes@.take(bytes@.len() as int) == bytes@);
    out
}

/// The non-empty NUL-separated fields of `text` that are complete, and the
/// field still being read at its end.
pub open spec fn nul_fields(text: Seq<char>) -> (Seq<Seq<char>>, Seq<char>)
    decreases text.len(),
{
    if text.len() == 0 {
        (Seq::empty(), Seq::empty())
    } else {
        let (done, current) = nul_fields(text.drop_last());
        if text.last() == '\0' {
            if current.len() > 0 {
                (done.push(current), Seq::empty())
            } else {
                (done, Seq::empty())
            }
        } else {
            (done, current.push(text.last()))
        }
    }
}

/// The non-empty fields of `text` between NUL characters, in order.
pub open spec fn nonempty_fields(text: Seq<char>) -> Seq<Seq<char>> {
    let (done, current) = nul_fields(text);
    if current.len() > 0 {
        done.push(current)
    } else {
        done
    }
}

/// The class `WM_CLASS` text names: it is `instance\0class\0`, and a
/// single field is read as the class.
pub open spec fn class_field(text: Seq<char>) -> Option<Seq<char>> {
    let fields = nonempty_fields(text);
    if fields.len() >= 2 {
        Some(fields[1])
    } else if fields.len() == 1 {
        Some(fields[0])
    } else {
        None
    }
}

/// `text` without its leading NUL characters.
pub open spec fn trim_nul_start(text: Seq<char>) -> Seq<char>
    decreases text.len(),
{
    if text.len() > 0 && text[0] == '\0' {
        trim_nul_start(text.drop_first())
    } else {
        text
    }
}

/// `text` without its trailing NUL characters.
pub open spec fn trim_nul_end(text: Seq<char>) -> Seq<char>
    decreases text.len(),
{
    if text.len() > 0 && text.last() == '\0' {
        trim_nul_end(text.drop_last())
    } else {
        text
    }
}

/// `text` without NUL characters at either end.
pub open spec fn trim_nul(text: Seq<char>) -> Seq<char> {
    trim_nul_end(trim_nul_start(text))
}

/// How many leading characters of `text` fit in `limit` bytes of UTF-8.
pub open spec fn chars_within(text: Seq<char>, limit: int) -> nat
    decreases text.len(),
{
    if text.len() == 0 || utf8_width(text[0]) > limit {
        0
    } else {
        1 + chars_within(text.drop_first(), limit - utf8_width(text[0]))
    }
}

/// The label `text` gives, as its characters and whether it was shortened:
/// none for text that is empty once NULs are trimmed or holds a control
/// character; the whole trimmed text where its UTF-8 fits in
/// `MAX_CHROME_LABEL_LEN` bytes; else the longest prefix that fits, marked
/// shortened, unless no character fits.
pub open spec fn label_of(text: Seq<char>) -> Option<(Seq<char>, bool)> {
    let trimmed = trim_nul(text);
    if trimmed.len() == 0 || exists|i: int| 0 <= i < trimmed.len() && is_control_char(
        #[trigger] trimmed[i],
    ) {
        None
    } else if encode_utf8(trimmed).len() <= MAX_CHROME_LABEL_LEN {
        Some((trimmed, false))
    } else if chars_within(trimmed, MAX_CHROME_LABEL_LEN as int) == 0 {
        None
    } else {
        Some((trimmed.take(chars_within(trimmed, MAX_CHROME_LABEL_LEN as int) as int), true))
    }
}

/// The views of a sequence of character vectors.
pub open spec fn field_views(fields: Seq<Vec<char>>) -> Seq<Seq<char>> {
    fields.map_values(|f: Vec<char>| f@)
}

/// The class field of `text`, as `class_field` reads it.
fn class_of(text: &Vec<char>) -> (class: Option<Vec<char>>)
    ensures
        match class {
            Some(c) => class_field(text@) == Some(c@),
            None => class_field(text@) is None,
        },
{
    let mut done: Vec<Vec<char>> = Vec::new();
    let mut current: Vec<char> = Vec::new();
    let mut i: usize = 0;
    while i < text.len()
        invariant
            i <= text@.len(),
            (field_views(done@), current@) == nul_fields(text@.take(i as int)),
        decreases text@.len() - i,
    {
        let c = text[i];
        proof {
            assert(text@.take(i + 1).drop_last() == text@.take(i as int));
            assert(text@.take(i + 1).last() == c);
        }
        if c == '\0' {
            if current.len() > 0 {
                let mut field: Vec<char> = Vec::new();
                std::mem::swap(&mut field, &mut current);
                let ghost before = done@;
                done.push(field);
                assert(field_views(done@) == field_views(before).push(field@));
            } else {
                current = Vec::new();
            }
        } else {
            current.push(c);
        }
        i = i + 1;
    }
    assert(text@.take(text@.len() as int) == text@);
    if current.len() > 0 {
        let ghost before = done@;
        let ghost last = current@;
        done.push(current);
        assert(field_views(done@) == field_views(before).push(last));
    }
    let ghost views = field_views(done@);
    assert(views == nonempty_fields(text@));
    if done.len() >= 2 {
        let second = done.swap_remove(1);
        Some(second)
    } else if done.len() == 1 {
        let first = done.swap_remove(0);
        Some(first)
    } else {
        None
    }
}

proof fn lemma_trim_start(text: Seq<char>, k: int)
    requires
        0 <= k <= text.len(),
        forall|i: int| 0 <= i < k ==> text[i] == '\0',
        k == text.len() || text[k] != '\0',
    ensures
        trim_nul_start(text) == text.skip(k),
    decreases k,
{
    if k == 0 {
        assert(text.skip(0) == text);
    } else {
        lemma_trim_start(text.drop_first(), k - 1);
        assert(text.drop_first().skip(k - 1) == text.skip(k));
    }
}

proof fn lemma_trim_end(text: Seq<char>, e: int)
    requires
        0 <= e <= text.len(),
        forall|i: int| e <= i < text.len() ==> text[i] == '\0',
        e == 0 || text[e - 1] != '\0',
    ensures
        trim_nul_end(text) == text.take(e),
    decreases text.len() - e,
{
    if e == text.len() {
        assert(text.take(e) == text);
    } else {
        lemma_trim_end(text.drop_last(), e);
        assert(text.drop_last().take(e) == text.take(e));
    }
}

/// `text` without NUL characters at either end.
fn trim_nuls(text: &Vec<char>) -> (trimmed: Vec<char>)
    ensures
        trimmed@ == trim_nul(text@),
{
    let mut start: usize = 0;
    while start < text.len() && text[start] == '\0'
        invariant
            start <= text@.len(),
            forall|i: int| 0 <= i < start ==> text@[i] == '\0',
        decreases text@.len() - start,
    {
        start = start + 1;
    }
    proof {
        lemma_trim_start(text@, start as int);
    }
    let ghost rest = text@.skip(start as int);
    let mut end: usize = text.len();
    while end > start && text[end - 1] == '\0'
        invariant
            start <= end <= text@.len(),
            forall|i: int| end <= i < text@.len() ==> text@[i] == '\0',
        decreases end,
    {
        end = end - 1;
    }
    proof {
        lemma_trim_end(rest, (end - start) as int);
    }
    let mut out: Vec<char> = Vec::new();
    let mut i: usize = start;
    while i < end
        invariant
            start <= i <= end <= text@.len(),
            out@ == text@.subrange(start as int, i as int),
        decreases end - i,
    {
        out.push(text[i]);
        assert(text@.subrange(start as int, i + 1) == text@.subrange(start as int, i as int).push(
            text@[i as int],
        ));
        i = i + 1;
    }
    assert(rest.take((end - start) as int) == text@.subrange(start as int, end as int));
    out
}

/// Whether any character of `text` is a control character.
fn has_control(text: &Vec<char>) -> (found: bool)
    ensures
        found == exists|i: int| 0 <= i < text@.len() && is_control_char(#[trigger] text@[i]),
{
    let mut i: usize = 0;
    while i < text.len()
        invariant
            i <= text@.len(),
            forall|j: int| 0 <= j < i ==> !is_control_char(#[trigger] text@[j]),
        decreases text@.len() - i,
    {
        if is_control(text[i]) {
            return true;
        }
        i = i + 1;
    }
    false
}

proof fn lemma_chars_within_all(text: Seq<char>, limit: int)
    requires
        limit >= 0,
    ensures
        chars_within(text, limit) <= text.len(),
        (chars_within(text, limit) == text.len()) == (encode_utf8(text).len() <= limit),
    decreases text.len(),
{
    if text.len() > 0 {
        assert(encode_utf8(text).len() == utf8_width(text[0]) + encode_utf8(
            text.drop_first(),
        ).len());
        if utf8_width(text[0]) <= limit {
            lemma_chars_within_all(text.drop_first(), limit - utf8_width(text[0]));
        }
    }
}

proof fn lemma_chars_within_step(text: Seq<char>, k: int, limit: int)
    requires
        0 <= k < text.len(),
    ensures
        chars_within(text.skip(k), limit) == if utf8_width(text[k]) > limit {
            0
        } else {
            1 + chars_within(text.skip(k + 1), limit - utf8_width(text[k]))
        },
{
    assert(text.skip(k)[0] == text[k]);
    assert(text.skip(k).drop_first() == text.skip(k + 1));
}

/// How many leading characters of `text` fit in `limit` bytes of UTF-8.
fn count_chars_within(text: &Vec<char>, limit: usize) -> (count: usize)
    ensures
        count == chars_within(text@, limit as int),
{
    let mut k: usize = 0;
    let mut used: usize = 0;
    assert(text@.skip(0) == text@);
    while k < text.len()
        invariant
            k <= text@.len(),
            used <= limit,
            chars_within(text@, limit as int) == k + chars_within(text@.skip(k as int), limit - used),
        decreases text@.len() - k,
    {
        let width = char_width(text[k]);
        proof {
            lemma_chars_within_step(text@, k as int, limit - used);
        }
        if width > limit - used {
            return k;
        }
        used = used + width;
        k = k + 1;
    }
    assert(text@.skip(k as int).len() == 0);
    k
}

/// A label as its characters and whether it was shortened.
pub open spec fn label_view(label: DisplayLabel) -> (Seq<char>, bool) {
    (label.text@, label.redacted)
}

/// The text a receiver may draw for a surface, and whether the authority
/// shortened it.
#[derive(Clone, Debug, PartialEq, Eq)]
pub struct DisplayLabel {
    pub text: String,
    pub redacted: bool,
}

/// Bounds and validates a label the way the Engine will when it arrives:
/// NULs at either end are trimmed, a control character refuses the whole
/// label, and an over-long label is cut on a character boundary and marked
/// shortened.
fn bounded_label(text: &Vec<char>) -> (label: Option<DisplayLabel>)
    ensures
        match label {
            Some(l) => label_of(text@) == Some(label_view(l)),
            None => label_of(text@) is None,
        },
{
    let trimmed = trim_nuls(text);
    if trimmed.len() == 0 || has_control(&trimmed) {
        return None;
    }
    let fits = count_chars_within(&trimmed, MAX_CHROME_LABEL_LEN);
    proof {
        lemma_chars_within_all(trimmed@, MAX_CHROME_LABEL_LEN as int);
    }
    if fits == trimmed.len() {
        return Some(DisplayLabel { text: string_of(&trimmed), redacted: false });
    }
    if fits == 0 {
        return None;
    }
    let mut prefix: Vec<char> = Vec::new();
    let mut i: usize = 0;
    while i < fits
        invariant
            fits <= trimmed@.len(),
            i <= fits,
            prefix@ == trimmed@.take(i as int),
        decreases fits - i,
    {
        prefix.push(trimmed[i]);
        assert(trimmed@.take(i + 1) == trimmed@.take(i as int).push(trimmed@[i as int]));
        i = i + 1;
    }
    Some(DisplayLabel { text: string_of(&prefix), redacted: true })
}

/// How much of a surface's identity a broker rule lets leave the
/// authority.
#[derive(Clone, Copy, Debug, PartialEq, Eq, Structural)]
pub enum MetadataDisclosure {
    /// Nothing: the surface's identity is withheld.
    Withheld,
    /// The application class, never the title.
    ClassOnly,
    /// The title, or the class where there is no title.
    Full,
}

impl MetadataDisclosure {
    pub open spec fn spec_discloses_text(self) -> bool {
        self != MetadataDisclosure::Withheld
    }

    /// Whether any text may be disclosed at this level.
    #[verifier::when_used_as_spec(spec_discloses_text)]
    pub fn discloses_text(self) -> (discloses: bool)
        ensures
            discloses == self.spec_discloses_text(),
    {
        !matches!(self, MetadataDisclosure::Withheld)
    }
}

/// A broker's ruling for one surface.
#[derive(Clone, Copy, Debug, PartialEq, Eq, Structural)]
pub struct MetadataDisclosureRule {
    pub surface: SurfaceId,
    pub disclosure: MetadataDisclosure,
}

/// What the authority hands on about one surface's identity.
#[derive(Clone, Debug, PartialEq, Eq)]
pub struct ReducedMetadataCandidate {
    pub surface: SurfaceId,
    pub label: Option<DisplayLabel>,
    pub disclosure: MetadataDisclosure,
    pub generation: u64,
}

/// The atoms the server's atom table holds for the names the reduction
/// reads; `None` for a name nobody interned. An atom table gives each name
/// one atom, so an atom carries a name exactly when it is that name's atom.
#[derive(Clone, Debug, PartialEq, Eq)]
pub struct XMetadataAtoms {
    /// `WM_NAME`
    pub wm_name: Option<XAtom>,
    /// `_NET_WM_NAME`
    pub net_wm_name: Option<XAtom>,
    /// `WM_CLASS`
    pub wm_class: Option<XAtom>,
    /// `UTF8_STRING`
    pub utf8_string: Option<XAtom>,
    /// The atoms of the property names that carry window identity, those of
    /// them that are interned.
    pub candidate_properties: Vec<XAtom>,
}

/// The disclosure `rule` grants `surface`: a rule for another surface, or
/// none at all, grants nothing.
pub open spec fn disclosure_for(surface: SurfaceId, rule: Option<MetadataDisclosureRule>) -> MetadataDisclosure {
    match rule {
        Some(r) => if r.surface == surface {
            r.disclosure
        } else {
            MetadataDisclosure::Withheld
        },
        None => MetadataDisclosure::Withheld,
    }
}

fn disclosure_of(surface: SurfaceId, rule: Option<MetadataDisclosureRule>) -> (disclosure:
    MetadataDisclosure)
    ensures
        disclosure == disclosure_for(surface, rule),
{
    match rule {
        Some(r) => if r.surface == surface {
            r.disclosure
        } else {
            MetadataDisclosure::Withheld
        },
        None => MetadataDisclosure::Withheld,
    }
}

/// The text a property holds: 8-bit and non-empty; `UTF8_STRING` as UTF-8,
/// refused where it is not valid, and any other type as Latin-1, which is
/// what `STRING` means.
pub open spec fn property_text(atoms: XMetadataAtoms, value: PropertyValue) -> Option<Seq<char>> {
    if value.format != 8 || value.bytes.len() == 0 {
        None
    } else if is_named(atoms.utf8_string, value.property_type) {
        if valid_utf8(value.bytes) {
            Some(decode_utf8(value.bytes))
        } else {
            None
        }
    } else {
        Some(latin1(value.bytes))
    }
}

fn decode_property_text(record: &XPropertyRecord, atoms: &XMetadataAtoms) -> (text: Option<
    Vec<char>,
>)
    ensures
        match text {
            Some(t) => property_text(*atoms, record@) == Some(t@),
            None => property_text(*atoms, record@) is None,
        },
{
    if record.format != 8 || record.bytes.len() == 0 {
        return None;
    }
    if is_named_atom(atoms.utf8_string, record.property_type) {
        match string_from_utf8(copy_bytes(record.bytes.as_slice())) {
            Some(text) => Some(chars_of(&text)),
            None => None,
        }
    } else {
        Some(latin1_chars(&record.bytes))
    }
}

fn decode_wm_class(record: &XPropertyRecord, atoms: &XMetadataAtoms) -> (class: Option<Vec<char>>)
    ensures
        match class {
            Some(c) => property_text(*atoms, record@) matches Some(t) && class_field(t) == Some(c@),
            None => match property_text(*atoms, record@) {
                Some(t) => class_field(t) is None,
                None => true,
            },
        },
{
    match decode_property_text(record, atoms) {
        Some(text) => class_of(&text),
        None => None,
    }
}

/// The views of an optional label.
pub open spec fn label_option_view(label: Option<DisplayLabel>) -> Option<(Seq<char>, bool)> {
    match label {
        Some(l) => Some(label_view(l)),
        None => None,
    }
}

/// The label a property gives under `disclosure`: `WM_CLASS` gives its
/// class at any level that discloses text; `WM_NAME` and `_NET_WM_NAME`
/// give the title only under `Full`; nothing else gives a label.
pub open spec fn reduced_label(
    atoms: XMetadataAtoms,
    property: XAtom,
    value: PropertyValue,
    disclosure: MetadataDisclosure,
) -> Option<(Seq<char>, bool)> {
    if !disclosure.spec_discloses_text() {
        None
    } else if is_named(atoms.wm_class, property) {
        match property_text(atoms, value) {
            Some(text) => match class_field(text) {
                Some(class) => label_of(class),
                None => None,
            },
            None => None,
        }
    } else if (is_named(atoms.wm_name, property) || is_named(atoms.net_wm_name, property))
        && disclosure == MetadataDisclosure::Full {
        match property_text(atoms, value) {
            Some(text) => label_of(text),
            None => None,
        }
    } else {
        None
    }
}

fn reduce_label(record: &XPropertyRecord, atoms: &XMetadataAtoms, disclosure: MetadataDisclosure) -> (label:
    Option<DisplayLabel>)
    ensures
        label_option_view(label) == reduced_label(*atoms, record.property, record@, disclosure),
{
    if !disclosure.discloses_text() {
        return None;
    }
    if is_named_atom(atoms.wm_class, record.property) {
        match decode_wm_class(record, atoms) {
            Some(class) => bounded_label(&class),
            None => None,
        }
    } else if (is_named_atom(atoms.wm_name, record.property) || is_named_atom(
        atoms.net_wm_name,
        record.property,
    )) && disclosure == MetadataDisclosure::Full {
        match decode_property_text(record, atoms) {
            Some(text) => bounded_label(&text),
            None => None,
        }
    } else {
        None
    }
}

/// Applies a disclosure rule to one stored property of a window shown as
/// `surface`. Absent a rule for that surface nothing is disclosed.
pub fn reduce_metadata_property(
    record: &XPropertyRecord,
    atoms: &XMetadataAtoms,
    surface: SurfaceId,
    rule: Option<MetadataDisclosureRule>,
) -> (candidate: ReducedMetadataCandidate)
    ensures
        candidate.surface == surface,
        candidate.disclosure == disclosure_for(surface, rule),
        candidate.generation == record.generation,
        label_option_view(candidate.label) == reduced_label(
            *atoms,
            record.property,
            record@,
            disclosure_for(surface, rule),
        ),
{
    let disclosure = disclosure_of(surface, rule);
    ReducedMetadataCandidate {
        surface,
        label: reduce_label(record, atoms, disclosure),
        disclosure,
        generation: record.generation,
    }
}

/// Whether a window carries `property` and it is one that names the
/// window's identity.
pub open spec fn is_identity_candidate(
    atoms: XMetadataAtoms,
    properties: Map<PropertyKey, PropertyValue>,
    namespace: NamespaceId,
    window: XResourceId,
    property: XAtom,
) -> bool {
    properties.contains_key((namespace, window, property))
        && atoms.candidate_properties@.contains(property)
}

/// The label the window's property named by `known` gives, where `allowed`
/// and the window carries it as an identity property.
pub open spec fn named_label(
    atoms: XMetadataAtoms,
    properties: Map<PropertyKey, PropertyValue>,
    namespace: NamespaceId,
    window: XResourceId,
    known: Option<XAtom>,
    allowed: bool,
    disclosure: MetadataDisclosure,
) -> Option<(Seq<char>, bool)> {
    match known {
        Some(a) => if allowed && is_identity_candidate(atoms, properties, namespace, window, a) {
            reduced_label(atoms, a, properties[(namespace, window, a)], disclosure)
        } else {
            None
        },
        None => None,
    }
}

/// The label a window's identity gives under `disclosure`: under `Full` the
/// `_NET_WM_NAME` title, else the `WM_NAME` title, else the class; under
/// `ClassOnly` the class alone.
pub open spec fn window_label(
    atoms: XMetadataAtoms,
    properties: Map<PropertyKey, PropertyValue>,
    namespace: NamespaceId,
    window: XResourceId,
    disclosure: MetadataDisclosure,
) -> Option<(Seq<char>, bool)> {
    let full = disclosure == MetadataDisclosure::Full;
    let net_name = named_label(atoms, properties, namespace, window, atoms.net_wm_name, full, disclosure);
    let name = named_label(atoms, properties, namespace, window, atoms.wm_name, full, disclosure);
    let class = named_label(
        atoms,
        properties,
        namespace,
        window,
        atoms.wm_class,
        disclosure.spec_discloses_text(),
        disclosure,
    );
    if net_name is Some {
        net_name
    } else if name is Some {
        name
    } else {
        class
    }
}

fn contains_atom(atoms: &Vec<XAtom>, atom: XAtom) -> (found: bool)
    ensures
        found == atoms@.contains(atom),
{
    let mut i: usize = 0;
    while i < atoms.len()
        invariant
            i <= atoms@.len(),
            forall|j: int| 0 <= j < i ==> atoms@[j] != atom,
        decreases atoms@.len() - i,
    {
        if atoms[i] == atom {
            assert(atoms@[i as int] == atom);
            return true;
        }
        i = i + 1;
    }
    false
}

/// The label the property named by `known` gives, once the properties
/// before `i` in `order` were looked at.
pub open spec fn label_seen(
    atoms: XMetadataAtoms,
    properties: Map<PropertyKey, PropertyValue>,
    namespace: NamespaceId,
    window: XResourceId,
    known: Option<XAtom>,
    allowed: bool,
    disclosure: MetadataDisclosure,
    order: Seq<XAtom>,
    i: int,
) -> Option<(Seq<char>, bool)> {
    match known {
        Some(a) => if order.take(i).contains(a) {
            named_label(atoms, properties, namespace, window, known, allowed, disclosure)
        } else {
            None
        },
        None => None,
    }
}

proof fn lemma_seen_step(order: Seq<XAtom>, i: int, known: Option<XAtom>)
    requires
        0 <= i < order.len(),
        !order.take(i).contains(order[i]),
    ensures
        order.take(i + 1) == order.take(i).push(order[i]),
        known matches Some(a) ==> (a == order[i] ==> order.take(i + 1).contains(a)),
        known matches Some(a) ==> (a != order[i] ==> order.take(i + 1).contains(a) == order.take(
            i,
        ).contains(a)),
{
    assert(order.take(i + 1) == order.take(i).push(order[i]));
    if let Some(a) = known {
        if a == order[i] {
            assert(order.take(i + 1)[i] == a);
        } else {
            if order.take(i + 1).contains(a) {
                let k = choose|k: int| 0 <= k < i + 1 && #[trigger] order.take(i + 1)[k] == a;
                assert(order.take(i)[k] == a);
            }
            if order.take(i).contains(a) {
                let k = choose|k: int| 0 <= k < i && #[trigger] order.take(i)[k] == a;
                assert(order.take(i + 1)[k] == a);
            }
        }
    }
}

/// Reduces one window's identity under the rule for `surface`: its newest
/// identity property's generation, and the label its identity properties
/// give. A window with no identity property gives nothing.
pub fn reduce_window_metadata(
    properties: &XPropertyTable,
    atoms: &XMetadataAtoms,
    namespace: NamespaceId,
    window: XResourceId,
    surface: SurfaceId,
    rule: Option<MetadataDisclosureRule>,
) -> (candidate: Option<ReducedMetadataCandidate>)
    ensures
        candidate is Some <==> exists|p: XAtom|
            is_identity_candidate(*atoms, properties@, namespace, window, p),
        candidate matches Some(c) ==> {
            &&& c.surface == surface
            &&& c.disclosure == disclosure_for(surface, rule)
            &&& label_option_view(c.label) == window_label(
                *atoms,
                properties@,
                namespace,
                window,
                disclosure_for(surface, rule),
            )
            &&& exists|p: XAtom|
                is_identity_candidate(*atoms, properties@, namespace, window, p)
                    && properties@[(namespace, window, p)].generation == c.generation
            &&& forall|p: XAtom|
                is_identity_candidate(*atoms, properties@, namespace, window, p)
                    ==> properties@[(namespace, window, p)].generation <= c.generation
        },
{
    let disclosure = disclosure_of(surface, rule);
    let full = disclosure == MetadataDisclosure::Full;
    let discloses = disclosure.discloses_text();
    let order = properties.properties_for_window(namespace, window);
    let ghost m = properties@;
    let mut found = false;
    let mut generation: u64 = 0;
    let mut net_name: Option<DisplayLabel> = None;
    let mut name: Option<DisplayLabel> = None;
    let mut class: Option<DisplayLabel> = None;
    let mut i: usize = 0;
    while i < order.len()
        invariant
            i <= order@.len(),
            m == properties@,
            forall|a: int, b: int| 0 <= a < b < order@.len() ==> order@[a] < order@[b],
            forall|p: XAtom| order@.contains(p) <==> m.contains_key((namespace, window, p)),
            full == (disclosure == MetadataDisclosure::Full),
            discloses == disclosure.spec_discloses_text(),
            found == exists|k: int|
                0 <= k < i && is_identity_candidate(*atoms, m, namespace, window, #[trigger] order@[k]),
            found ==> exists|k: int|
                0 <= k < i && is_identity_candidate(*atoms, m, namespace, window, #[trigger] order@[k])
                    && m[(namespace, window, order@[k])].generation == generation,
            forall|k: int|
                0 <= k < i && is_identity_candidate(*atoms, m, namespace, window, #[trigger] order@[k])
                    ==> m[(namespace, window, order@[k])].generation <= generation,
            label_option_view(net_name) == label_seen(
                *atoms,
                m,
                namespace,
                window,
                atoms.net_wm_name,
                full,
                disclosure,
                order@,
                i as int,
            ),
            label_option_view(name) == label_seen(
                *atoms,
                m,
                namespace,
                window,
                atoms.wm_name,
                full,
                disclosure,
                order@,
                i as int,
            ),
            label_option_view(class) == label_seen(
                *atoms,
                m,
                namespace,
                window,
                atoms.wm_class,
                discloses,
                disclosure,
                order@,
                i as int,
            ),
        decreases order@.len() - i,
    {
        let p = order[i];
        proof {
            assert(order@.take(i + 1) == order@.take(i as int).push(p));
            assert(!order@.take(i as int).contains(p)) by {
                if order@.take(i as int).contains(p) {
                    let k = choose|k: int| 0 <= k < i && order@.take(i as int)[k] == p;
                    assert(order@[k] < order@[i as int]);
                }
            }
            assert(order@.contains(p));
            lemma_seen_step(order@, i as int, atoms.net_wm_name);
            lemma_seen_step(order@, i as int, atoms.wm_name);
            lemma_seen_step(order@, i as int, atoms.wm_class);
        }
        let candidate = contains_atom(&atoms.candidate_properties, p);
        match properties.get(namespace, window, p) {
            Some(record) => {
                if candidate {
                    if !found || record.generation > generation {
                        generation = record.generation;
                    }
                    found = true;
                    if full && is_named_atom(atoms.net_wm_name, p) {
                        net_name = reduce_label(record, atoms, disclosure);
                    }
                    if full && is_named_atom(atoms.wm_name, p) {
                        name = reduce_label(record, atoms, disclosure);
                    }
                    if discloses && is_named_atom(atoms.wm_class, p) {
                        class = reduce_label(record, atoms, disclosure);
                    }
                }
            },
            None => {},
        }
        i = i + 1;
    }
    proof {
        assert(order@.take(order@.len() as int) == order@);
        assert forall|p: XAtom| is_identity_candidate(*atoms, m, namespace, window, p) implies exists|
            k: int,
        | 0 <= k < order@.len() && #[trigger] order@[k] == p by {
            assert(order@.contains(p));
        }
    }
    if !found {
        return None;
    }
    let label = if net_name.is_some() {
        net_name
    } else if name.is_some() {
        name
    } else {
        class
    };
    Some(ReducedMetadataCandidate { surface, label, disclosure, generation })
}

proof fn lemma_chars_within_fits(text: Seq<char>, limit: int)
    requires
        limit >= 0,
    ensures
        chars_within(text, limit) <= text.len(),
        encode_utf8(text.take(chars_within(text, limit) as int)).len() <= limit,
    decreases text.len(),
{
    let k = chars_within(text, limit);
    if text.len() == 0 || utf8_width(text[0]) > limit {
        assert(text.take(0) == Seq::<char>::empty());
    } else {
        let rest = text.drop_first();
        lemma_chars_within_fits(rest, limit - utf8_width(text[0]));
        let taken = text.take(k as int);
        assert(taken[0] == text[0]);
        assert(taken.drop_first() == rest.take(k - 1));
        assert(encode_utf8(taken).len() == utf8_width(text[0]) + encode_utf8(taken.drop_first()).len());
    }
}

/// Under `ClassOnly` no title reaches a label: a property gives a label only
/// as the window's class, and a window's label is its class label.
pub proof fn law_class_only_never_carries_title(
    atoms: XMetadataAtoms,
    property: XAtom,
    value: PropertyValue,
    properties: Map<PropertyKey, PropertyValue>,
    namespace: NamespaceId,
    window: XResourceId,
)
    ensures
        reduced_label(atoms, property, value, MetadataDisclosure::ClassOnly) == if is_named(
            atoms.wm_class,
            property,
        ) {
            match property_text(atoms, value) {
                Some(text) => match class_field(text) {
                    Some(class) => label_of(class),
                    None => None,
                },
                None => None,
            }
        } else {
            None
        },
        window_label(atoms, properties, namespace, window, MetadataDisclosure::ClassOnly)
            == named_label(
            atoms,
            properties,
            namespace,
            window,
            atoms.wm_class,
            true,
            MetadataDisclosure::ClassOnly,
        ),
{
}

/// A surface no rule speaks for, or whose rule is `Withheld`, discloses
/// nothing.
pub proof fn law_unruled_surface_discloses_nothing(
    atoms: XMetadataAtoms,
    surface: SurfaceId,
    rule: Option<MetadataDisclosureRule>,
    property: XAtom,
    value: PropertyValue,
)
    requires
        rule matches Some(r) ==> r.surface != surface || r.disclosure == MetadataDisclosure::Withheld,
    ensures
        disclosure_for(surface, rule) == MetadataDisclosure::Withheld,
        reduced_label(atoms, property, value, disclosure_for(surface, rule)) is None,
{
}

/// A label is never empty, holds no control character, fits in
/// `MAX_CHROME_LABEL_LEN` bytes of UTF-8, and is the NUL-trimmed text or a
/// prefix of it, marked shortened exactly when it is a proper prefix.
pub proof fn law_label_is_bounded_prefix(text: Seq<char>)
    ensures
        label_of(text) matches Some((label, redacted)) ==> {
            &&& label.len() > 0
            &&& encode_utf8(label).len() <= MAX_CHROME_LABEL_LEN
            &&& forall|i: int| 0 <= i < label.len() ==> !is_control_char(#[trigger] label[i])
            &&& label == trim_nul(text).take(label.len() as int)
            &&& redacted == (label.len() < trim_nul(text).len())
        },
{
    let trimmed = trim_nul(text);
    lemma_chars_within_fits(trimmed, MAX_CHROME_LABEL_LEN as int);
    lemma_chars_within_all(trimmed, MAX_CHROME_LABEL_LEN as int);
    if let Some((label, redacted)) = label_of(text) {
        if !redacted {
            assert(trimmed.take(trimmed.len() as int) == trimmed);
        }
        assert forall|i: int| 0 <= i < label.len() implies !is_control_char(#[trigger] label[i]) by {
            assert(label[i] == trimmed[i]);
        }
    }
}

} // verus!
