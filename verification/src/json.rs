//! JSON documents as mathematical values, and the calls into `serde_json` that
//! read, change, parse and print them.
//!
//! A [`serde_json::Value`] is opaque to the verifier. [`contents`] names the document
//! that it holds, and the functions of this module say over that name what each
//! call into the crate does.

use vstd::arithmetic::power;
use vstd::prelude::*;

verus! {

/// A JSON document.
///
/// Integers are the numbers that `serde_json` keeps as `u64` or `i64`. A number
/// that it keeps as a float stands for itself by the text that it is printed as.
/// An object has no order among its members.
#[verifier::ext_equal]
pub enum Json {
    Null,
    Bool(bool),
    Int(int),
    Float(Seq<char>),
    Text(Seq<char>),
    Array(Seq<Json>),
    Object(Map<Seq<char>, Json>),
}

/// The number that the digits of a text make, whatever else stands among them.
pub open spec fn digits(text: Seq<char>) -> nat
    decreases text.len(),
{
    if text.len() == 0 {
        0
    } else {
        let c = text.last();
        let before = digits(text.drop_last());
        if '0' <= c && c <= '9' {
            (10 * before + (c as int - '0' as int)) as nat
        } else {
            before
        }
    }
}

/// What stands before the first `mark` in a text: all of it, where there is none.
pub open spec fn before(text: Seq<char>, mark: char) -> Seq<char>
    decreases text.len(),
{
    if text.len() == 0 || text[0] == mark {
        Seq::empty()
    } else {
        seq![text[0]] + before(text.drop_first(), mark)
    }
}

/// What stands behind the first `mark` in a text: nothing, where there is none.
pub open spec fn behind(text: Seq<char>, mark: char) -> Seq<char> {
    if before(text, mark).len() < text.len() {
        text.skip(before(text, mark).len() as int + 1)
    } else {
        Seq::empty()
    }
}

/// The number that an exponent, or what stands before one, is given as.
pub open spec fn signed(text: Seq<char>, n: int) -> int {
    if text.len() > 0 && text[0] == '-' {
        -n
    } else {
        n
    }
}

/// The value of a float that is printed as `text`, such as `-12.5` or `1.5e-7`,
/// times `10^400`. No float that there is needs more places than that.
pub open spec fn decimal(text: Seq<char>) -> int {
    let significand = before(text, 'e');
    let exponent = signed(behind(text, 'e'), digits(behind(text, 'e')) as int);
    let places = behind(significand, '.').len();
    signed(text, digits(significand) as int) * power::pow(10, (400 + exponent - places) as nat)
}

/// The magnitude of a number.
pub open spec fn magnitude(x: int) -> int {
    if x < 0 {
        -x
    } else {
        x
    }
}

/// The float `a` is `b` but for rounding: they differ by at most a `10^15`th of `b`.
/// Of floats under `1e-300`, which are kept with fewer places, only the sign and that
/// they are so small is told.
pub open spec fn close(a: Seq<char>, b: Seq<char>) -> bool {
    let x = decimal(a);
    let y = decimal(b);
    &&& y >= 0 ==> x >= 0
    &&& y <= 0 ==> x <= 0
    &&& {
        ||| magnitude(x - y) * 1_000_000_000_000_000 <= magnitude(y)
        ||| magnitude(x) < power::pow(10, 100) && magnitude(y) < power::pow(10, 100)
    }
}

/// A float that is not tiny is taken neither for zero nor for one of another sign, nor
/// for one that is larger or smaller by more than a rounding.
pub proof fn law_close_floats_agree(a: Seq<char>, b: Seq<char>)
    requires
        close(a, b),
        magnitude(decimal(b)) >= power::pow(10, 100),
    ensures
        (decimal(a) > 0) == (decimal(b) > 0),
        (decimal(a) < 0) == (decimal(b) < 0),
        magnitude(decimal(a) - decimal(b)) * 1_000_000_000_000_000 <= magnitude(decimal(b)),
{
    power::lemma_pow_positive(10, 100);
}

impl Json {
    /// The member `key` of an object; nothing for a missing member, or where
    /// this is no object.
    pub open spec fn member(self, key: Seq<char>) -> Option<Json> {
        match self {
            Json::Object(m) => if m.contains_key(key) {
                Some(m[key])
            } else {
                None
            },
            _ => None,
        }
    }

    /// The characters of a text; nothing for any other document.
    pub open spec fn text(self) -> Option<Seq<char>> {
        match self {
            Json::Text(s) => Some(s),
            _ => None,
        }
    }

    /// At most `depth` arrays and objects stand inside one another, and each float
    /// is one of `floats`.
    pub open spec fn nests_within(self, depth: nat, floats: spec_fn(Seq<char>) -> bool) -> bool
        decreases depth,
    {
        match self {
            Json::Array(items) => depth > 0 && forall|i: int|
                0 <= i < items.len() ==> (#[trigger] items[i]).nests_within(
                    (depth - 1) as nat,
                    floats,
                ),
            Json::Object(m) => depth > 0 && forall|k: Seq<char>|
                m.contains_key(k) ==> (#[trigger] m[k]).nests_within((depth - 1) as nat, floats),
            Json::Float(f) => floats(f),
            _ => true,
        }
    }

    /// Every integer is one that `serde_json` keeps as `u64` or `i64`.
    pub open spec fn integers_fit(self) -> bool
        decreases self,
    {
        match self {
            Json::Int(n) => i64::MIN <= n <= u64::MAX,
            Json::Array(items) => forall|i: int|
                0 <= i < items.len() ==> (#[trigger] items[i]).integers_fit(),
            Json::Object(m) => forall|k: Seq<char>| #[trigger]
                m.contains_key(k) ==> m[k].integers_fit(),
            _ => true,
        }
    }

    /// The documents differ at most in the rounding of their floats.
    pub open spec fn alike(self, other: Json) -> bool
        decreases self,
    {
        match (self, other) {
            (Json::Array(a), Json::Array(b)) => a.len() == b.len() && forall|i: int|
                0 <= i < a.len() ==> (#[trigger] a[i]).alike(b[i]),
            (Json::Object(a), Json::Object(b)) => a.dom() == b.dom() && forall|k: Seq<char>|
                #[trigger] a.contains_key(k) ==> a[k].alike(b[k]),
            (Json::Float(a), Json::Float(b)) => close(a, b),
            _ => self == other,
        }
    }
}

/// A document is alike itself.
pub proof fn lemma_alike_itself(t: Json)
    ensures
        t.alike(t),
    decreases t,
{
    match t {
        Json::Array(items) => {
            assert forall|i: int| 0 <= i < items.len() implies (#[trigger] items[i]).alike(
                items[i],
            ) by {
                lemma_alike_itself(items[i]);
            }
        },
        Json::Object(m) => {
            assert forall|k: Seq<char>| #[trigger] m.contains_key(k) implies m[k].alike(m[k]) by {
                lemma_alike_itself(m[k]);
            }
        },
        _ => {},
    }
}

/// Documents that are alike have the same members, and these are alike.
pub proof fn lemma_alike_member(a: Json, b: Json, key: Seq<char>)
    requires
        a.alike(b),
    ensures
        a.member(key) is Some == b.member(key) is Some,
        a.member(key) is Some ==> a.member(key)->0.alike(b.member(key)->0),
{
    if let Json::Object(m) = a {
        assert(m.contains_key(key) == b->Object_0.contains_key(key));
    }
}

/// Every float.
pub open spec fn any_float() -> spec_fn(Seq<char>) -> bool {
    |f: Seq<char>| true
}

/// The floats of a magnitude under 1e308: those that are not printed with that
/// exponent, which is the largest.
pub open spec fn moderate_float() -> spec_fn(Seq<char>) -> bool {
    |f: Seq<char>| !"e+308"@.is_suffix_of(f)
}

/// The float zero, of either sign.
pub open spec fn zero_float() -> spec_fn(Seq<char>) -> bool {
    |f: Seq<char>| f == "0.0"@ || f == "-0.0"@
}

/// How many arrays and objects may stand inside one another in a text that is
/// parsed: one fewer than `serde_json`'s recursion limit of 128.
pub open spec fn nesting() -> nat {
    127
}

/// The type of parsed JSON documents.
#[verifier::external_type_specification]
#[verifier::external_body]
pub struct ExValue(serde_json::Value);

/// The type of the members of a JSON object.
#[verifier::external_type_specification]
#[verifier::external_body]
#[verifier::reject_recursive_types(K)]
#[verifier::reject_recursive_types(V)]
pub struct ExMap<K, V>(serde_json::Map<K, V>);

/// The error of parsing and printing.
#[verifier::external_type_specification]
#[verifier::external_body]
pub struct ExError(serde_json::Error);

/// The document that a value holds.
pub uninterp spec fn contents(v: serde_json::Value) -> Json;

/// The members that an object's map holds.
pub uninterp spec fn members(m: serde_json::Map<String, serde_json::Value>) -> Map<Seq<char>, Json>;

/// The document that a text stands for; nothing for a text that is not JSON, or
/// nests too deeply.
pub uninterp spec fn parsed(text: Seq<char>) -> Option<Json>;

/// The compact text of a document. The members of an object stand in the order of
/// their names, so the text is a function of the document.
pub uninterp spec fn printed(document: Json) -> Seq<char>;

/// The documents that the values of an array hold.
pub open spec fn list(items: Seq<serde_json::Value>) -> Seq<Json> {
    items.map_values(|v: serde_json::Value| contents(v))
}

/// The parts, one after the other, with commas between them.
pub open spec fn joined(parts: Seq<Seq<char>>) -> Seq<char>
    decreases parts.len(),
{
    if parts.len() == 0 {
        Seq::empty()
    } else if parts.len() == 1 {
        parts[0]
    } else {
        joined(parts.drop_last()) + seq![','] + parts.last()
    }
}

/// The text is the document in its compact form, with the members of each object in
/// any order.
pub open spec fn writes(text: Seq<char>, document: Json) -> bool
    decreases document,
{
    match document {
        Json::Array(items) => exists|parts: Seq<Seq<char>>|
            {
                &&& parts.len() == items.len()
                &&& forall|i: int| 0 <= i < items.len() ==> writes(parts[i], #[trigger] items[i])
                &&& text == seq!['['] + #[trigger] joined(parts) + seq![']']
            },
        Json::Object(m) => exists|names: Seq<Seq<char>>, parts: Seq<Seq<char>>|
            {
                &&& names.no_duplicates()
                &&& names.to_set() == m.dom()
                &&& parts.len() == names.len()
                &&& forall|i: int|
                    0 <= i < names.len() ==> m.contains_key(#[trigger] names[i]) && writes(
                        parts[i],
                        m[names[i]],
                    )
                &&& text == seq!['{'] + joined(#[trigger] members_written(names, parts)) + seq!['}']
            },
        _ => text == printed(document),
    }
}

/// The members of an object, each with its name and what its value is written as.
pub open spec fn members_written(names: Seq<Seq<char>>, parts: Seq<Seq<char>>) -> Seq<Seq<char>> {
    Seq::new(names.len(), |i: int| printed(Json::Text(names[i])) + seq![':'] + parts[i])
}

/// `serde_json::from_str` at `Value`: whether a text parses, and as what, is a
/// function of the text. A parsed document nests at most 127 deep, because the
/// parser stops at its recursion limit. The text `0.0` is the float zero. The compact
/// form of a document, with the members of its objects in any order, parses as that
/// document, if its integers fit, its floats are zero, and it does not nest too deeply.
#[verifier::external_body]
pub(crate) fn from_str(s: &str) -> (res: Result<serde_json::Value, serde_json::Error>)
    ensures
        match res {
            Ok(v) => parsed(s@) == Some(contents(v)) && contents(v).nests_within(
                nesting(),
                any_float(),
            ),
            Err(_) => parsed(s@) is None,
        },
        s@ == "0.0"@ ==> res is Ok && contents(res->Ok_0) == Json::Float("0.0"@),
        forall|d: Json| #[trigger]
            writes(s@, d) && d.integers_fit() && d.nests_within(nesting(), zero_float()) ==> res
                is Ok && contents(res->Ok_0) == d,
{
    serde_json::from_str::<serde_json::Value>(s)
}

/// No character of the text is escaped when it is printed.
pub open spec fn is_plain(text: Seq<char>) -> bool {
    forall|i: int|
        0 <= i < text.len() ==> (#[trigger] text[i]) >= ' ' && text[i] != '"' && text[i] != '\\'
}

/// `serde_json::to_string` at `Value`: printing never fails, its text is a
/// function of the document, in the compact form, and no NUL character stands in it,
/// since control characters are escaped. `null`, truth values, numbers and texts
/// without a character to escape are printed as such.
///
/// If the text parses, it parses as a document alike: floats stay floats, though the
/// parser may round one differently in the last digit, and everything else comes back
/// as it was. A float is printed as the shortest text that is nearest to it, and parsed
/// by at most two products or quotients of the digits and powers of ten, so it comes
/// back to within six roundings, each of at most a `2^53`rd of it, unless it is among
/// the smallest. The text does parse where every float is under 1e308; the parser may
/// round a larger one up to infinity, which it refuses. Where every float is zero, the
/// document itself comes back.
///
/// The bound on the nesting keeps the recursion of printing within the stack.
#[verifier::external_body]
pub(crate) fn to_string(v: &serde_json::Value) -> (res: Result<String, serde_json::Error>)
    requires
        contents(*v).nests_within(nesting(), any_float()),
    ensures
        res is Ok,
        res->Ok_0@ == printed(contents(*v)),
        writes(res->Ok_0@, contents(*v)),
        match contents(*v) {
            Json::Null => res->Ok_0@ == "null"@,
            Json::Bool(b) => res->Ok_0@ == if b {
                "true"@
            } else {
                "false"@
            },
            Json::Int(n) => signed(res->Ok_0@, digits(res->Ok_0@) as int) == n,
            Json::Float(f) => res->Ok_0@ == f,
            Json::Text(t) => is_plain(t) ==> res->Ok_0@ == seq!['"'] + t + seq!['"'],
            _ => res is Ok,
        },
        !res->Ok_0@.contains('\0'),
        contents(*v).nests_within(nesting(), zero_float()) ==> parsed(res->Ok_0@) == Some(
            contents(*v),
        ),
        parsed(res->Ok_0@) is Some ==> parsed(res->Ok_0@)->0.alike(contents(*v)),
        contents(*v).nests_within(nesting(), moderate_float()) ==> parsed(res->Ok_0@) is Some,
{
    serde_json::to_string(v)
}

/// `Value::as_object_mut`: the members of an object, to be changed in place;
/// nothing, and no change, for any other document.
#[verifier::external_body]
pub(crate) fn as_object_mut(v: &mut serde_json::Value) -> (res: Option<
    &mut serde_json::Map<String, serde_json::Value>,
>)
    ensures
        match res {
            Some(m) => {
                &&& contents(*old(v)) == Json::Object(members(*m))
                &&& contents(*final(v)) == Json::Object(members(*final(m)))
            },
            None => !(contents(*old(v)) is Object) && contents(*final(v)) == contents(*old(v)),
        },
{
    v.as_object_mut()
}

/// `Map::entry` and `Entry::or_insert`: a missing member is added with the given
/// value; a member that is there stays as it is.
#[verifier::external_body]
pub(crate) fn entry_or_insert(
    m: &mut serde_json::Map<String, serde_json::Value>,
    key: &str,
    default: serde_json::Value,
)
    ensures
        members(*final(m)) == if members(*old(m)).contains_key(key@) {
            members(*old(m))
        } else {
            members(*old(m)).insert(key@, contents(default))
        },
{
    m.entry(key).or_insert(default);
}

/// `Value::get_mut` at a text key: the member of that name, to be changed in
/// place; nothing, and no change, where there is none.
#[verifier::external_body]
pub(crate) fn get_mut<'a>(v: &'a mut serde_json::Value, key: &str) -> (res: Option<
    &'a mut serde_json::Value,
>)
    ensures
        match res {
            Some(e) => {
                &&& contents(*old(v)).member(key@) == Some(contents(*e))
                &&& contents(*final(v)) == Json::Object(
                    contents(*old(v))->Object_0.insert(key@, contents(*final(e))),
                )
            },
            None => {
                &&& contents(*old(v)).member(key@) is None
                &&& contents(*final(v)) == contents(*old(v))
            },
        },
{
    v.get_mut(key)
}

/// `Value::as_array_mut`: the items of an array, to be changed in place;
/// nothing, and no change, for any other document.
#[verifier::external_body]
pub(crate) fn as_array_mut(v: &mut serde_json::Value) -> (res: Option<
    &mut Vec<serde_json::Value>,
>)
    ensures
        match res {
            Some(items) => {
                &&& contents(*old(v)) == Json::Array(list(items@))
                &&& contents(*final(v)) == Json::Array(list(final(items)@))
            },
            None => !(contents(*old(v)) is Array) && contents(*final(v)) == contents(*old(v)),
        },
{
    v.as_array_mut()
}

/// `Value::get` at a text key: the member of that name.
#[verifier::external_body]
pub(crate) fn get<'a>(v: &'a serde_json::Value, key: &str) -> (res: Option<&'a serde_json::Value>)
    ensures
        match res {
            Some(e) => contents(*v).member(key@) == Some(contents(*e)),
            None => contents(*v).member(key@) is None,
        },
{
    v.get(key)
}

/// `Value::as_str`: the characters of a text.
#[verifier::external_body]
pub(crate) fn as_str(v: &serde_json::Value) -> (res: Option<&str>)
    ensures
        match res {
            Some(s) => contents(*v).text() == Some(s@),
            None => contents(*v).text() is None,
        },
{
    v.as_str()
}

/// `Value::from` at `bool`.
#[verifier::external_body]
pub(crate) fn from_bool(b: bool) -> (v: serde_json::Value)
    ensures
        contents(v) == Json::Bool(b),
{
    serde_json::Value::from(b)
}

/// `Value::from` at `i64`.
#[verifier::external_body]
pub(crate) fn from_int(n: i64) -> (v: serde_json::Value)
    ensures
        contents(v) == Json::Int(n as int),
{
    serde_json::Value::from(n)
}

/// `Value::from` at `&str`.
#[verifier::external_body]
pub(crate) fn from_text(s: &str) -> (v: serde_json::Value)
    ensures
        contents(v) == Json::Text(s@),
{
    serde_json::Value::from(s)
}

/// `Value::Array`.
#[verifier::external_body]
pub(crate) fn from_items(items: Vec<serde_json::Value>) -> (v: serde_json::Value)
    ensures
        contents(v) == Json::Array(list(items@)),
{
    serde_json::Value::Array(items)
}

/// `Value::Object` of `Map::new`: the object without members.
#[verifier::external_body]
pub(crate) fn empty_object() -> (v: serde_json::Value)
    ensures
        contents(v) == Json::Object(Map::empty()),
{
    serde_json::Value::Object(serde_json::Map::new())
}

} // verus!
