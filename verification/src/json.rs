use vstd::prelude::*;
use vstd::string::StringExecFns;

use crate::text::push_char;
use crate::text::str_eq;

verus! {

/// Ghost mirror of a JSON document: the mathematical value that the
/// contracts of this crate speak about.
#[verifier::ext_equal]
pub enum JsonV {
    Null,
    Bool(bool),
    /// A number, kept in its textual form; the renderer never computes
    /// with JSON numbers.
    Num(Seq<char>),
    Str(Seq<char>),
    Arr(Seq<JsonV>),
    Obj(Seq<(Seq<char>, JsonV)>),
}

/// A JSON document. Object entries keep the order in which they were
/// handed over; the parser produces them sorted by key.
#[derive(Debug)]
pub enum JsonValue {
    Null,
    Bool(bool),
    Num(String),
    Str(String),
    Arr(Vec<JsonValue>),
    Obj(Vec<(String, JsonValue)>),
}

pub open spec fn view_json_seq(s: Seq<JsonValue>) -> Seq<JsonV>
    decreases s,
{
    if s.len() == 0 {
        Seq::empty()
    } else {
        seq![view_json(s[0])] + view_json_seq(s.subrange(1, s.len() as int))
    }
}

pub open spec fn view_json_entries(s: Seq<(String, JsonValue)>) -> Seq<(Seq<char>, JsonV)>
    decreases s,
{
    if s.len() == 0 {
        Seq::empty()
    } else {
        seq![(s[0].0@, view_json(s[0].1))] + view_json_entries(s.subrange(1, s.len() as int))
    }
}

pub open spec fn view_json(j: JsonValue) -> JsonV
    decreases j,
{
    match j {
        JsonValue::Null => JsonV::Null,
        JsonValue::Bool(b) => JsonV::Bool(b),
        JsonValue::Num(s) => JsonV::Num(s@),
        JsonValue::Str(s) => JsonV::Str(s@),
        JsonValue::Arr(v) => JsonV::Arr(view_json_seq(v@)),
        JsonValue::Obj(v) => JsonV::Obj(view_json_entries(v@)),
    }
}

impl DeepView for JsonValue {
    type V = JsonV;

    open spec fn deep_view(&self) -> JsonV {
        view_json(*self)
    }
}

pub broadcast proof fn lemma_view_json_seq_index(s: Seq<JsonValue>)
    ensures
        #[trigger] view_json_seq(s).len() == s.len(),
        forall|i: int| 0 <= i < s.len() ==> view_json_seq(s)[i] == view_json(s[i]),
    decreases s,
{
    if s.len() > 0 {
        lemma_view_json_seq_index(s.subrange(1, s.len() as int));
    }
}

pub broadcast proof fn lemma_view_json_entries_index(s: Seq<(String, JsonValue)>)
    ensures
        #[trigger] view_json_entries(s).len() == s.len(),
        forall|i: int|
            0 <= i < s.len() ==> view_json_entries(s)[i] == (s[i].0@, view_json(s[i].1)),
    decreases s,
{
    if s.len() > 0 {
        lemma_view_json_entries_index(s.subrange(1, s.len() as int));
    }
}

/// Looks a key up among the entries of a JSON object, first match wins.
pub open spec fn obj_lookup(entries: Seq<(Seq<char>, JsonV)>, key: Seq<char>) -> Option<JsonV>
    decreases entries.len(),
{
    if entries.len() == 0 {
        None
    } else if entries[0].0 == key {
        Some(entries[0].1)
    } else {
        obj_lookup(entries.subrange(1, entries.len() as int), key)
    }
}

/// The value of a field of a JSON object; `None` on any other shape.
pub open spec fn jv_get(j: JsonV, key: Seq<char>) -> Option<JsonV> {
    match j {
        JsonV::Obj(entries) => obj_lookup(entries, key),
        _ => None,
    }
}

proof fn lemma_obj_lookup_skip(entries: Seq<(Seq<char>, JsonV)>, key: Seq<char>, i: int)
    requires
        0 <= i <= entries.len(),
        forall|k: int| 0 <= k < i ==> entries[k].0 != key,
    ensures
        obj_lookup(entries, key) == obj_lookup(entries.subrange(i, entries.len() as int), key),
    decreases i,
{
    if i == 0 {
        assert(entries.subrange(0, entries.len() as int) =~= entries);
    } else {
        assert(entries[0].0 != key);
        lemma_obj_lookup_skip(entries.subrange(1, entries.len() as int), key, i - 1);
        assert(entries.subrange(1, entries.len() as int).subrange(i - 1, entries.len() - 1)
            =~= entries.subrange(i, entries.len() as int));
    }
}

pub proof fn lemma_obj_lookup_in(entries: Seq<(Seq<char>, JsonV)>, key: Seq<char>)
    requires
        obj_lookup(entries, key) is Some,
    ensures
        exists|k: int|
            0 <= k < entries.len() && entries[k].1 == obj_lookup(entries, key)->0,
    decreases entries.len(),
{
    if entries.len() > 0 {
        if entries[0].0 == key {
            assert(entries[0].1 == obj_lookup(entries, key)->0);
        } else {
            let rest = entries.subrange(1, entries.len() as int);
            lemma_obj_lookup_in(rest, key);
            let k = choose|k: int|
                0 <= k < rest.len() && rest[k].1 == obj_lookup(rest, key)->0;
            assert(entries[k + 1].1 == obj_lookup(entries, key)->0);
        }
    }
}

/// A field value of a JSON object stands below the object in the
/// decreases order, so a decoder may recurse on it.
pub proof fn lemma_jv_get_smaller(j: JsonV, key: Seq<char>)
    requires
        jv_get(j, key) is Some,
    ensures
        decreases_to!(j => jv_get(j, key)->0),
{
    let entries = j->Obj_0;
    lemma_obj_lookup_in(entries, key);
    let k = choose|k: int|
        0 <= k < entries.len() && entries[k].1 == obj_lookup(entries, key)->0;
    assert(decreases_to!(j => j->Obj_0));
    assert(decreases_to!(j->Obj_0 => j->Obj_0[k]));
    assert(decreases_to!(j->Obj_0[k] => j->Obj_0[k].1));
}

impl JsonValue {
    /// Returns the value of the named field, if this value is an object
    /// that has one.
    #[verifier::loop_isolation(false)]
    pub fn get<'a>(&'a self, key: &str) -> (r: Option<&'a JsonValue>)
        ensures
            match r {
                Some(v) => jv_get(self.deep_view(), key@) == Some(v.deep_view()),
                None => jv_get(self.deep_view(), key@) is None,
            },
            (r matches Some(v) ==> decreases_to!(*self => *v)),
    {
        match self {
            JsonValue::Obj(entries) => {
                let ghost g = view_json_entries(entries@);
                proof {
                    lemma_view_json_entries_index(entries@);
                }
                let n = entries.len();
                let mut i: usize = 0;
                while i < n
                    invariant
                        n == entries@.len(),
                        g == view_json_entries(entries@),
                        g.len() == n,
                        forall|k: int| 0 <= k < n ==> g[k] == (entries@[k].0@, view_json(entries@[k].1)),
                        0 <= i <= n,
                        forall|k: int| 0 <= k < i ==> g[k].0 != key@,
                    decreases n - i,
                {
                    if str_eq(entries[i].0.as_str(), key) {
                        proof {
                            lemma_obj_lookup_skip(g, key@, i as int);
                            assert(*self == JsonValue::Obj(*entries));
                            assert(self.deep_view() == JsonV::Obj(g));
                            assert(g.subrange(i as int, n as int)[0] == g[i as int]);
                            assert(obj_lookup(g.subrange(i as int, n as int), key@) == Some(
                                g[i as int].1,
                            ));
                        }
                        proof {
                            assert(decreases_to!(*self => (*self)->Obj_0));
                            assert(decreases_to!((*self)->Obj_0 => (*self)->Obj_0@));
                            assert(decreases_to!((*self)->Obj_0@ => (*self)->Obj_0@[i as int]));
                            assert(decreases_to!((*self)->Obj_0@[i as int] => (*self)->Obj_0@[
                                i as int
                            ].1));
                            assert(decreases_to!(*self => entries@[i as int].1));
                        }
                        return Some(&entries[i].1);
                    }
                    i += 1;
                }
                proof {
                    lemma_obj_lookup_skip(g, key@, n as int);
                    assert(*self == JsonValue::Obj(*entries));
                    assert(self.deep_view() == JsonV::Obj(g));
                    assert(g.subrange(n as int, n as int).len() == 0);
                }
                None
            },
            _ => None,
        }
    }

    /// The string this value holds, if it is a JSON string.
    pub fn as_str_val<'a>(&'a self) -> (r: Option<&'a String>)
        ensures
            match r {
                Some(s) => self.deep_view() == JsonV::Str(s@),
                None => !(self.deep_view() is Str),
            },
    {
        match self {
            JsonValue::Str(s) => Some(s),
            _ => None,
        }
    }

    /// The elements this value holds, if it is a JSON array.
    pub fn as_arr<'a>(&'a self) -> (r: Option<&'a Vec<JsonValue>>)
        ensures
            match r {
                Some(v) => self.deep_view() == JsonV::Arr(view_json_seq(v@)),
                None => !(self.deep_view() is Arr),
            },
            (r matches Some(v) ==> decreases_to!(*self => *v)),
    {
        match self {
            JsonValue::Arr(v) => {
                proof {
                    assert(decreases_to!(*self => (*self)->Arr_0));
                }
                Some(v)
            },
            _ => None,
        }
    }

    /// The entries this value holds, if it is a JSON object.
    pub fn as_obj<'a>(&'a self) -> (r: Option<&'a Vec<(String, JsonValue)>>)
        ensures
            match r {
                Some(v) => self.deep_view() == JsonV::Obj(view_json_entries(v@)),
                None => !(self.deep_view() is Obj),
            },
            (r matches Some(v) ==> decreases_to!(*self => *v)),
    {
        match self {
            JsonValue::Obj(v) => {
                proof {
                    assert(decreases_to!(*self => (*self)->Obj_0));
                }
                Some(v)
            },
            _ => None,
        }
    }
}

/// Structural copy of a JSON value.
#[verifier::loop_isolation(false)]
pub fn clone_json(j: &JsonValue) -> (r: JsonValue)
    ensures
        r.deep_view() == j.deep_view(),
    decreases *j,
{
    match j {
        JsonValue::Null => JsonValue::Null,
        JsonValue::Bool(b) => JsonValue::Bool(*b),
        JsonValue::Num(s) => JsonValue::Num(s.clone()),
        JsonValue::Str(s) => JsonValue::Str(s.clone()),
        JsonValue::Arr(v) => {
            let mut out: Vec<JsonValue> = Vec::new();
            let n = v.len();
            let mut i: usize = 0;
            while i < n
                invariant
                    n == v@.len(),
                    0 <= i <= n,
                    out@.len() == i,
                    forall|k: int| 0 <= k < i ==> (#[trigger] out@[k]).deep_view() == v@[k].deep_view(),
                decreases n - i,
            {
                proof {
                    assert(decreases_to!(*j => (*j)->Arr_0));
                    assert(decreases_to!((*j)->Arr_0 => (*j)->Arr_0@));
                    assert(decreases_to!((*j)->Arr_0@ => (*j)->Arr_0@[i as int]));
                    assert(decreases_to!(*j => v@[i as int]));
                }
                let c = clone_json(&v[i]);
                out.push(c);
                i += 1;
            }
            proof {
                lemma_view_json_seq_index(out@);
                lemma_view_json_seq_index(v@);
                assert(view_json_seq(out@) =~= view_json_seq(v@));
            }
            JsonValue::Arr(out)
        },
        JsonValue::Obj(v) => {
            let mut out: Vec<(String, JsonValue)> = Vec::new();
            let n = v.len();
            let mut i: usize = 0;
            while i < n
                invariant
                    n == v@.len(),
                    0 <= i <= n,
                    out@.len() == i,
                    forall|k: int|
                        0 <= k < i ==> (#[trigger] out@[k]).0@ == v@[k].0@ && out@[k].1.deep_view()
                            == v@[k].1.deep_view(),
                decreases n - i,
            {
                proof {
                    assert(decreases_to!(*j => (*j)->Obj_0));
                    assert(decreases_to!((*j)->Obj_0 => (*j)->Obj_0@));
                    assert(decreases_to!((*j)->Obj_0@ => (*j)->Obj_0@[i as int]));
                    assert(decreases_to!((*j)->Obj_0@[i as int] => (*j)->Obj_0@[i as int].1));
                    assert(decreases_to!(*j => v@[i as int].1));
                }
                let key = v[i].0.clone();
                let val = clone_json(&v[i].1);
                out.push((key, val));
                i += 1;
            }
            proof {
                lemma_view_json_entries_index(out@);
                lemma_view_json_entries_index(v@);
                assert(view_json_entries(out@) =~= view_json_entries(v@));
            }
            JsonValue::Obj(out)
        },
    }
}

/// The escape applied to one character inside a quoted JSON string.
pub open spec fn esc_char(c: char) -> Seq<char> {
    if c == '"' {
        seq!['\\', '"']
    } else if c == '\\' {
        seq!['\\', '\\']
    } else if c == '\n' {
        seq!['\\', 'n']
    } else if c == '\r' {
        seq!['\\', 'r']
    } else if c == '\t' {
        seq!['\\', 't']
    } else {
        seq![c]
    }
}

/// The escaped form of the suffix of `s` that starts at `i`.
pub open spec fn esc_str(s: Seq<char>, i: int) -> Seq<char>
    decreases s.len() - i,
{
    if i < 0 || i >= s.len() {
        Seq::empty()
    } else {
        esc_char(s[i]) + esc_str(s, i + 1)
    }
}

/// A run of `n` spaces.
pub open spec fn spaces(n: int) -> Seq<char>
    decreases n,
{
    if n <= 0 {
        Seq::empty()
    } else {
        spaces(n - 1).push(' ')
    }
}

/// The indentation of a nested level, two columns deeper.
pub open spec fn bump(ind: int) -> int {
    if ind + 2 <= usize::MAX as int {
        ind + 2
    } else {
        ind
    }
}

/// Indented JSON text for a value standing at indentation `ind`.
pub open spec fn pretty(j: JsonV, ind: int) -> Seq<char>
    decreases j, 0int,
{
    match j {
        JsonV::Null => "null"@,
        JsonV::Bool(b) => if b {
            "true"@
        } else {
            "false"@
        },
        JsonV::Num(s) => s,
        JsonV::Str(s) => seq!['"'] + esc_str(s, 0) + seq!['"'],
        JsonV::Arr(elems) => if elems.len() == 0 {
            "[]"@
        } else {
            "[\n"@ + pretty_elems(elems, bump(ind), 0) + spaces(ind) + "]"@
        },
        JsonV::Obj(entries) => if entries.len() == 0 {
            "{}"@
        } else {
            "{\n"@ + pretty_entries(entries, bump(ind), 0) + spaces(ind) + "}"@
        },
    }
}

pub open spec fn pretty_elems(elems: Seq<JsonV>, ind: int, i: int) -> Seq<char>
    decreases elems, elems.len() - i,
{
    if i < 0 || i >= elems.len() {
        Seq::empty()
    } else {
        spaces(ind) + pretty(elems[i], ind) + (if i + 1 < elems.len() {
            ",\n"@
        } else {
            "\n"@
        }) + pretty_elems(elems, ind, i + 1)
    }
}

pub open spec fn pretty_entries(entries: Seq<(Seq<char>, JsonV)>, ind: int, i: int) -> Seq<char>
    decreases entries, entries.len() - i,
{
    if i < 0 || i >= entries.len() {
        Seq::empty()
    } else {
        spaces(ind) + seq!['"'] + esc_str(entries[i].0, 0) + "\": "@ + pretty(entries[i].1, ind)
            + (if i + 1 < entries.len() {
            ",\n"@
        } else {
            "\n"@
        }) + pretty_entries(entries, ind, i + 1)
    }
}

#[verifier::loop_isolation(false)]
fn append_spaces(out: &mut String, n: usize)
    ensures
        final(out)@ == old(out)@ + spaces(n as int),
{
    let mut i: usize = 0;
    proof {
        assert(old(out)@ + spaces(0) =~= old(out)@);
    }
    while i < n
        invariant
            0 <= i <= n,
            out@ == old(out)@ + spaces(i as int),
        decreases n - i,
    {
        push_char(out, ' ');
        i += 1;
        proof {
            assert(out@ =~= old(out)@ + spaces(i as int));
        }
    }
}

#[verifier::loop_isolation(false)]
fn append_escaped(out: &mut String, s: &str)
    ensures
        final(out)@ == old(out)@ + esc_str(s@, 0),
{
    let n = s.unicode_len();
    let mut i: usize = 0;
    while i < n
        invariant
            n == s@.len(),
            0 <= i <= n,
            out@ + esc_str(s@, i as int) == old(out)@ + esc_str(s@, 0),
        decreases n - i,
    {
        let ghost prev = out@;
        let c = s.get_char(i);
        if c == '"' {
            push_char(out, '\\');
            push_char(out, '"');
        } else if c == '\\' {
            push_char(out, '\\');
            push_char(out, '\\');
        } else if c == '\n' {
            push_char(out, '\\');
            push_char(out, 'n');
        } else if c == '\r' {
            push_char(out, '\\');
            push_char(out, 'r');
        } else if c == '\t' {
            push_char(out, '\\');
            push_char(out, 't');
        } else {
            push_char(out, c);
        }
        proof {
            assert(out@ =~= prev + esc_char(s@[i as int]));
            assert(out@ + esc_str(s@, i + 1) =~= prev + esc_str(s@, i as int));
        }
        i += 1;
    }
}

#[verifier::loop_isolation(false)]
fn append_pretty(out: &mut String, j: &JsonValue, ind: usize)
    ensures
        final(out)@ == old(out)@ + pretty(j.deep_view(), ind as int),
    decreases *j, 0int,
{
    match j {
        JsonValue::Null => {
            out.append("null");
        },
        JsonValue::Bool(b) => {
            if *b {
                out.append("true");
            } else {
                out.append("false");
            }
        },
        JsonValue::Num(s) => {
            out.append(s.as_str());
        },
        JsonValue::Str(s) => {
            push_char(out, '"');
            append_escaped(out, s.as_str());
            push_char(out, '"');
            proof {
                assert(out@ =~= old(out)@ + pretty(j.deep_view(), ind as int));
            }
        },
        JsonValue::Arr(v) => {
            if v.len() == 0 {
                out.append("[]");
                proof {
                    assert(view_json_seq(v@).len() == 0);
                }
            } else {
                out.append("[\n");
                let ind2 = if ind <= usize::MAX - 2 {
                    ind + 2
                } else {
                    ind
                };
                proof {
                    assert(decreases_to!(*j => (*j)->Arr_0));
                    assert(decreases_to!(*j => *v));
                }
                append_pretty_elems(out, j, v, ind2, 0);
                append_spaces(out, ind);
                out.append("]");
                proof {
                    lemma_view_json_seq_index(v@);
                    assert(out@ =~= old(out)@ + pretty(j.deep_view(), ind as int));
                }
            }
        },
        JsonValue::Obj(v) => {
            if v.len() == 0 {
                out.append("{}");
                proof {
                    assert(view_json_entries(v@).len() == 0);
                }
            } else {
                out.append("{\n");
                let ind2 = if ind <= usize::MAX - 2 {
                    ind + 2
                } else {
                    ind
                };
                proof {
                    assert(decreases_to!(*j => (*j)->Obj_0));
                    assert(decreases_to!(*j => *v));
                }
                append_pretty_entries(out, j, v, ind2, 0);
                append_spaces(out, ind);
                out.append("}");
                proof {
                    lemma_view_json_entries_index(v@);
                    assert(out@ =~= old(out)@ + pretty(j.deep_view(), ind as int));
                }
            }
        },
    }
}

#[verifier::loop_isolation(false)]
fn append_pretty_elems(out: &mut String, j: &JsonValue, v: &Vec<JsonValue>, ind: usize, i: usize)
    requires
        *j == JsonValue::Arr(*v),
        i <= v@.len(),
    ensures
        final(out)@ == old(out)@ + pretty_elems(view_json_seq(v@), ind as int, i as int),
    decreases *v, v@.len() - i,
{
    proof {
        lemma_view_json_seq_index(v@);
    }
    if i == v.len() {
        proof {
            assert(old(out)@ + pretty_elems(view_json_seq(v@), ind as int, i as int) =~= old(
                out,
            )@);
        }
    } else {
        append_spaces(out, ind);
        proof {
            assert(decreases_to!(*v => (*v)@));
            assert(decreases_to!((*v)@ => (*v)@[i as int]));
            assert(decreases_to!(*v => v@[i as int]));
        }
        append_pretty(out, &v[i], ind);
        if i + 1 < v.len() {
            out.append(",\n");
        } else {
            out.append("\n");
        }
        append_pretty_elems(out, j, v, ind, i + 1);
        proof {
            assert(out@ =~= old(out)@ + pretty_elems(view_json_seq(v@), ind as int, i as int));
        }
    }
}

#[verifier::loop_isolation(false)]
fn append_pretty_entries(
    out: &mut String,
    j: &JsonValue,
    v: &Vec<(String, JsonValue)>,
    ind: usize,
    i: usize,
)
    requires
        *j == JsonValue::Obj(*v),
        i <= v@.len(),
    ensures
        final(out)@ == old(out)@ + pretty_entries(view_json_entries(v@), ind as int, i as int),
    decreases *v, v@.len() - i,
{
    proof {
        lemma_view_json_entries_index(v@);
    }
    if i == v.len() {
        proof {
            assert(old(out)@ + pretty_entries(view_json_entries(v@), ind as int, i as int)
                =~= old(out)@);
        }
    } else {
        append_spaces(out, ind);
        push_char(out, '"');
        append_escaped(out, v[i].0.as_str());
        out.append("\": ");
        proof {
            assert(decreases_to!(*v => (*v)@));
            assert(decreases_to!((*v)@ => (*v)@[i as int]));
            assert(decreases_to!((*v)@[i as int] => (*v)@[i as int].1));
            assert(decreases_to!(*v => v@[i as int].1));
        }
        append_pretty(out, &v[i].1, ind);
        if i + 1 < v.len() {
            out.append(",\n");
        } else {
            out.append("\n");
        }
        append_pretty_entries(out, j, v, ind, i + 1);
        proof {
            assert(out@ =~= old(out)@ + pretty_entries(
                view_json_entries(v@),
                ind as int,
                i as int,
            ));
        }
    }
}

impl JsonValue {
    /// Renders this value as indented JSON text, as it appears in error
    /// reports.
    pub fn to_pretty(&self) -> (r: String)
        ensures
            r@ == pretty(self.deep_view(), 0),
    {
        let mut out = String::new();
        append_pretty(&mut out, self, 0);
        out
    }
}

} // verus!
