//! What a query gives back: JSON values, and the result set they make.

use crate::text::{char_is_digit, chars_of, digit_value, str_eq, views};
use vstd::prelude::*;
use vstd::string::*;

verus! {

/// A JSON value.
///
/// A number is held as its numeral, written as JSON writes it. The members
/// of an object are held in the order in which the object lists them, each
/// name once. [`is_well_formed`] says so of a value, and [`check`] tells
/// whether it holds. A member is looked up from the front, which in a
/// value that is well formed finds the one member of the name.
#[derive(Debug)]
pub enum JsonValue {
    Null,
    Bool(bool),
    Number(String),
    String(String),
    Array(Vec<JsonValue>),
    Object(Vec<(String, JsonValue)>),
}

/// The first member of `members` that is named `key`.
pub open spec fn spec_member(members: Seq<(String, JsonValue)>, key: Seq<char>) -> Option<
    JsonValue,
>
    decreases members.len(),
{
    if members.len() == 0 {
        None
    } else if members[0].0@ == key {
        Some(members[0].1)
    } else {
        spec_member(members.drop_first(), key)
    }
}

/// Whether no two of `members` have the same name.
pub open spec fn names_distinct(members: Seq<(String, JsonValue)>) -> bool {
    forall|i: int, j: int|
        0 <= i < j < members.len() ==> (#[trigger] members[i]).0@ != (#[trigger] members[j]).0@
}

/// The place after the digits that stand in `s` from the place `i` on.
pub open spec fn digits_end(s: Seq<char>, i: int) -> int
    decreases s.len() - i,
{
    if 0 <= i < s.len() && digit_value(s[i]) is Some {
        digits_end(s, i + 1)
    } else {
        i
    }
}

/// Whether `s` is a number as JSON writes one: an optional minus sign; a
/// zero, or digits that do not begin with a zero; then, each optional, a
/// point with digits after it, and an `e` or `E` with an optional sign and
/// digits after it.
pub open spec fn is_numeral(s: Seq<char>) -> bool {
    let a: int = if s.len() > 0 && s[0] == '-' {
        1
    } else {
        0
    };
    let b = digits_end(s, a);
    let c = if b < s.len() && s[b] == '.' {
        digits_end(s, b + 1)
    } else {
        b
    };
    let e = if c < s.len() && (s[c] == 'e' || s[c] == 'E') {
        if c + 1 < s.len() && (s[c + 1] == '+' || s[c + 1] == '-') {
            c + 2
        } else {
            c + 1
        }
    } else {
        c
    };
    let d = if e > c {
        digits_end(s, e)
    } else {
        c
    };
    &&& b > a
    &&& (s[a] == '0' ==> b == a + 1)
    &&& (b < s.len() && s[b] == '.' ==> c > b + 1)
    &&& (e > c ==> d > e)
    &&& d == s.len()
}

/// Whether a value is one that JSON can hold: every number in it is
/// written as JSON writes one, and no object in it has two members of one
/// name.
pub open spec fn is_well_formed(value: JsonValue) -> bool
    decreases value,
{
    match value {
        JsonValue::Number(numeral) => is_numeral(numeral@),
        JsonValue::Array(items) => forall|i: int|
            0 <= i < items@.len() ==> is_well_formed(#[trigger] items@[i]),
        JsonValue::Object(members) => names_distinct(members@) && forall|i: int|
            0 <= i < members@.len() ==> is_well_formed((#[trigger] members@[i]).1),
        _ => true,
    }
}

/// The names of `members`, in their order.
pub open spec fn spec_names(members: Seq<(String, JsonValue)>) -> Seq<Seq<char>> {
    Seq::new(members.len(), |i: int| members[i].0@)
}

fn find_member<'a>(members: &'a Vec<(String, JsonValue)>, key: &str) -> (r: Option<&'a JsonValue>)
    ensures
        match r {
            Some(value) => spec_member(members@, key@) == Some(*value),
            None => spec_member(members@, key@) is None,
        },
{
    let mut i: usize = 0;
    proof {
        assert(members@.subrange(0, members@.len() as int) =~= members@);
    }
    while i < members.len()
        invariant
            i <= members.len(),
            spec_member(members@, key@) == spec_member(
                members@.subrange(i as int, members@.len() as int),
                key@,
            ),
        decreases members.len() - i,
    {
        if str_eq(members[i].0.as_str(), key) {
            return Some(&members[i].1);
        }
        proof {
            assert(members@.subrange(i as int, members@.len() as int).drop_first()
                =~= members@.subrange(i as int + 1, members@.len() as int));
        }
        i += 1;
    }
    None
}

/// The first member of `members` that is named `key`. In an object that
/// has each name once, that is the one member of that name.
pub fn member<'a>(members: &'a Vec<(String, JsonValue)>, key: &str) -> (r: Option<&'a JsonValue>)
    ensures
        match r {
            Some(value) => spec_member(members@, key@) == Some(*value),
            None => spec_member(members@, key@) is None,
        },
        names_distinct(members@) ==> forall|j: int|
            0 <= j < members@.len() && (#[trigger] members@[j]).0@ == key@ ==> r is Some
                && *r->Some_0 == members@[j].1,
{
    let r = find_member(members, key);
    proof {
        if names_distinct(members@) {
            assert forall|j: int|
                0 <= j < members@.len() && (#[trigger] members@[j]).0@ == key@ implies r is Some
                && *r->Some_0 == members@[j].1 by {
                lemma_member_is_the_one(members@, j);
            }
        }
    }
    r
}

/// The names of `members`, in their order.
pub fn names_of(members: &Vec<(String, JsonValue)>) -> (r: Vec<String>)
    ensures
        views(r@) == spec_names(members@),
        r@.len() == members@.len(),
{
    let mut names: Vec<String> = Vec::new();
    let mut i: usize = 0;
    while i < members.len()
        invariant
            i <= members.len(),
            names@.len() == i,
            forall|j: int| 0 <= j < i ==> names@[j]@ == members@[j].0@,
        decreases members.len() - i,
    {
        names.push(members[i].0.clone());
        i += 1;
    }
    proof {
        assert(views(names@) =~= spec_names(members@));
    }
    names
}

fn skip_digits(v: &Vec<char>, from: usize) -> (r: usize)
    requires
        from <= v.len(),
    ensures
        r == digits_end(v@, from as int),
        from <= r <= v.len(),
{
    let mut i: usize = from;
    while i < v.len() && char_is_digit(v[i])
        invariant
            from <= i <= v.len(),
            digits_end(v@, from as int) == digits_end(v@, i as int),
        decreases v.len() - i,
    {
        i += 1;
    }
    i
}

/// Tells whether `s` is a number as JSON writes one.
pub fn check_numeral(s: &str) -> (r: bool)
    ensures
        r == is_numeral(s@),
{
    let v = chars_of(s);
    let n: usize = v.len();
    let a: usize = if n > 0 && v[0] == '-' {
        1
    } else {
        0
    };
    let b: usize = skip_digits(&v, a);
    if b == a {
        return false;
    }
    if v[a] == '0' && b != a + 1 {
        return false;
    }
    let c: usize = if b < n && v[b] == '.' {
        let c: usize = skip_digits(&v, b + 1);
        if c == b + 1 {
            return false;
        }
        c
    } else {
        b
    };
    let e: usize = if c < n && (v[c] == 'e' || v[c] == 'E') {
        if c + 1 < n && (v[c + 1] == '+' || v[c + 1] == '-') {
            c + 2
        } else {
            c + 1
        }
    } else {
        c
    };
    let d: usize = if e > c {
        let d: usize = skip_digits(&v, e);
        if d == e {
            return false;
        }
        d
    } else {
        c
    };
    d == n
}

/// Tells whether no two of `members` have the same name.
pub fn check_names(members: &Vec<(String, JsonValue)>) -> (r: bool)
    ensures
        r == names_distinct(members@),
{
    let mut j: usize = 0;
    while j < members.len()
        invariant
            j <= members.len(),
            forall|a: int, b: int|
                0 <= a < b < j ==> (#[trigger] members@[a]).0@ != (#[trigger] members@[b]).0@,
        decreases members.len() - j,
    {
        let mut i: usize = 0;
        while i < j
            invariant
                i <= j < members.len(),
                forall|a: int| 0 <= a < i ==> (#[trigger] members@[a]).0@ != members@[j as int].0@,
            decreases j - i,
        {
            if str_eq(members[i].0.as_str(), members[j].0.as_str()) {
                proof {
                    assert(members@[i as int].0@ == members@[j as int].0@);
                }
                return false;
            }
            i += 1;
        }
        j += 1;
    }
    true
}

/// Tells whether a value is one that JSON can hold.
#[verifier::loop_isolation(false)]
pub fn check(value: &JsonValue) -> (r: bool)
    ensures
        r == is_well_formed(*value),
    decreases value,
{
    match value {
        JsonValue::Number(numeral) => check_numeral(numeral.as_str()),
        JsonValue::Array(items) => {
            let mut i: usize = 0;
            while i < items.len()
                invariant
                    i <= items.len(),
                    forall|k: int| 0 <= k < i ==> is_well_formed(#[trigger] items@[k]),
                decreases items.len() - i,
            {
                proof {
                    assert(decreases_to!(*value => items@[i as int]));
                }
                if !check(&items[i]) {
                    proof {
                        assert(!is_well_formed(items@[i as int]));
                    }
                    return false;
                }
                i += 1;
            }
            true
        },
        JsonValue::Object(members) => {
            if !check_names(members) {
                return false;
            }
            let mut i: usize = 0;
            while i < members.len()
                invariant
                    i <= members.len(),
                    forall|k: int| 0 <= k < i ==> is_well_formed((#[trigger] members@[k]).1),
                decreases members.len() - i,
            {
                proof {
                    assert(decreases_to!(*value => members@[i as int].1));
                }
                if !check(&members[i].1) {
                    proof {
                        assert(!is_well_formed(members@[i as int].1));
                    }
                    return false;
                }
                i += 1;
            }
            true
        },
        _ => true,
    }
}

/// In an object that has each name once, the member of a name is the one
/// member that has it: looked up from the front or from the back, it is
/// the same.
pub proof fn lemma_member_is_the_one(members: Seq<(String, JsonValue)>, j: int)
    requires
        names_distinct(members),
        0 <= j < members.len(),
    ensures
        spec_member(members, members[j].0@) == Some(members[j].1),
    decreases members.len(),
{
    if j > 0 {
        let rest = members.drop_first();
        assert(members[0].0@ != members[j].0@);
        assert forall|a: int, b: int| 0 <= a < b < rest.len() implies (#[trigger] rest[a]).0@ != (
        #[trigger] rest[b]).0@ by {
            assert(rest[a] == members[a + 1] && rest[b] == members[b + 1]);
        }
        assert(rest[j - 1] == members[j]);
        lemma_member_is_the_one(rest, j - 1);
    }
}

/// A JSON value as `serde_json` holds it.
#[verifier::external_type_specification]
#[verifier::external_body]
pub struct ExValue(serde_json::Value);

/// The text that `serde_json` writes for a value in its compact form, on
/// one line and without spaces between the parts.
pub uninterp spec fn json_compact(value: JsonValue) -> Seq<char>;

/// The text that `serde_json` writes for a list of values in its pretty
/// form, as one array with two spaces of indent; or, where it refuses to
/// write them, the text of its error.
pub uninterp spec fn json_pretty(values: Seq<JsonValue>) -> Result<Seq<char>, Seq<char>>;

/// Hands a value over to `serde_json`, part by part: `serde_json::Value`
/// has the same six kinds. Two things are decided on the way, neither of
/// them for a value that [`is_well_formed`] and whose numbers are in
/// range. A numeral that `serde_json::Number` does not read, because it is
/// no number as JSON writes one or because its value is out of range,
/// becomes `null`, as a number that JSON cannot write does in `serde_json`
/// itself. The members of an object go into a `serde_json::Map`, which
/// keeps them by name: of two members of one name the later one stays.
/// Nothing is claimed of the result.
#[verifier::external_body]
fn to_serde(value: &JsonValue) -> serde_json::Value {
    match value {
        JsonValue::Null => serde_json::Value::Null,
        JsonValue::Bool(b) => serde_json::Value::Bool(*b),
        JsonValue::Number(numeral) => numeral.parse::<serde_json::Number>().map_or(
            serde_json::Value::Null,
            serde_json::Value::Number,
        ),
        JsonValue::String(s) => serde_json::Value::String(s.clone()),
        JsonValue::Array(items) => serde_json::Value::Array(items.iter().map(to_serde).collect()),
        JsonValue::Object(members) => serde_json::Value::Object(
            members.iter().map(|m| (m.0.clone(), to_serde(&m.1))).collect(),
        ),
    }
}

/// `serde_json::Value`'s `to_string`: the compact JSON text of `value`.
/// The text depends on the value alone.
#[verifier::external_body]
pub(crate) fn compact_json(value: &JsonValue) -> (r: String)
    ensures
        r@ == json_compact(*value),
{
    to_serde(value).to_string()
}

/// `serde_json::to_string_pretty`: the pretty JSON text of `values` as one
/// array, or the text of the error where `serde_json` refuses. Which of
/// the two, and the text, depend on the values alone.
#[verifier::external_body]
pub(crate) fn pretty_json(values: &[JsonValue]) -> (r: Result<String, String>)
    ensures
        match r {
            Ok(text) => json_pretty(values@) == Ok::<Seq<char>, Seq<char>>(text@),
            Err(cause) => json_pretty(values@) == Err::<Seq<char>, Seq<char>>(cause@),
        },
{
    let converted: Vec<serde_json::Value> = values.iter().map(to_serde).collect();
    serde_json::to_string_pretty(&converted).map_err(|e| e.to_string())
}

/// A result set with at least one row.
#[derive(Debug)]
pub struct NonEmptyResults(Vec<JsonValue>);

impl NonEmptyResults {
    #[verifier::type_invariant]
    spec fn holds_a_row(self) -> bool {
        self.0@.len() > 0
    }

    /// The rows of the result set, in the order in which they came.
    pub closed spec fn view(self) -> Seq<JsonValue> {
        self.0@
    }

    /// The rows of the result set: there is at least one.
    pub fn results(&self) -> (r: &[JsonValue])
        ensures
            r@ == self@,
            r@.len() > 0,
    {
        proof {
            use_type_invariant(self);
        }
        self.0.as_slice()
    }
}

/// What a query that ran gives back.
#[derive(Debug)]
pub enum QueryResults {
    /// The query gave no row.
    Empty,
    /// The query gave one row or more.
    NonEmpty(NonEmptyResults),
}

impl QueryResults {
    /// The rows of the result set; none where it is empty.
    pub open spec fn rows(self) -> Seq<JsonValue> {
        match self {
            QueryResults::Empty => Seq::empty(),
            QueryResults::NonEmpty(results) => results@,
        }
    }

    /// The rows that a value stands for when it is all that a database
    /// gave back: the items of an array, no row for null, and else the
    /// value itself as the one row.
    pub open spec fn spec_rows_of(value: JsonValue) -> Seq<JsonValue> {
        match value {
            JsonValue::Array(items) => items@,
            JsonValue::Null => Seq::empty(),
            _ => seq![value],
        }
    }

    /// The result set that a value stands for when it is all that a
    /// database gave back.
    pub fn from_value(value: JsonValue) -> (r: QueryResults)
        ensures
            r.rows() == QueryResults::spec_rows_of(value),
            r is Empty <==> QueryResults::spec_rows_of(value).len() == 0,
    {
        match value {
            JsonValue::Array(items) => QueryResults::new(items),
            JsonValue::Null => QueryResults::new(Vec::new()),
            other => {
                let mut rows: Vec<JsonValue> = Vec::new();
                rows.push(other);
                proof {
                    assert(rows@ =~= seq![other]);
                }
                QueryResults::new(rows)
            },
        }
    }

    /// The result set that holds `results`: `Empty` exactly where there is
    /// no row.
    pub fn new(results: Vec<JsonValue>) -> (r: QueryResults)
        ensures
            r is Empty <==> results@.len() == 0,
            r.rows() == results@,
    {
        if results.len() == 0 {
            return QueryResults::Empty;
        }
        QueryResults::NonEmpty(NonEmptyResults(results))
    }
}

} // verus!
