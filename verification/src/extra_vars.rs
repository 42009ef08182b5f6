//! The extra-vars configuration document: an ordered, flat key/value
//! template handed to the configuration-management runner, one per stage.
//!
//! The textual shape is a wire contract consumed by existing playbooks:
//! `{ "key": "value", "key2": "value2" }`, with array-valued fields rendered
//! as `"key": ["v1", "v2"]`, and never a trailing `, ` separator before the
//! closing brace.

use vstd::prelude::*;
use vstd::string::StringExecFns;

verus! {

/// A value in an extra-vars document: a quoted scalar or an array of quoted
/// scalars.
pub enum VarValue {
    Scalar(Seq<char>),
    Array(Seq<Seq<char>>),
}

/// One key/value pair of an extra-vars document.
pub struct VarEntry {
    pub key: Seq<char>,
    pub value: VarValue,
}

/// The rendering of one quoted scalar: `"v"`.
pub open spec fn spec_render_scalar(v: Seq<char>) -> Seq<char> {
    "\""@ + v + "\""@
}

/// The inside of an array rendering: the items quoted and joined with `, `.
pub open spec fn spec_join_array_items(items: Seq<Seq<char>>) -> Seq<char>
    decreases items.len(),
{
    if items.len() == 0 {
        Seq::empty()
    } else if items.len() == 1 {
        spec_render_scalar(items[0])
    } else {
        spec_join_array_items(items.drop_last()) + ", "@ + spec_render_scalar(items.last())
    }
}

/// The rendering of a value: `"v"`, or `["v1", "v2"]`.
pub open spec fn spec_render_value(v: VarValue) -> Seq<char> {
    match v {
        VarValue::Scalar(s) => spec_render_scalar(s),
        VarValue::Array(items) => "["@ + spec_join_array_items(items) + "]"@,
    }
}

/// The rendering of one entry: `"key": <value>`.
pub open spec fn spec_render_entry(e: VarEntry) -> Seq<char> {
    "\""@ + e.key + "\": "@ + spec_render_value(e.value)
}

/// The entries rendered and joined with `, `.
pub open spec fn spec_join_entries(es: Seq<VarEntry>) -> Seq<char>
    decreases es.len(),
{
    if es.len() == 0 {
        Seq::empty()
    } else if es.len() == 1 {
        spec_render_entry(es[0])
    } else {
        spec_join_entries(es.drop_last()) + ", "@ + spec_render_entry(es.last())
    }
}

/// The whole document: `{ <entries> }`.
pub open spec fn spec_render_doc(es: Seq<VarEntry>) -> Seq<char> {
    "{ "@ + spec_join_entries(es) + " }"@
}

/// Assembles an extra-vars document entry by entry, in order. The entries
/// written so far are carried as a ghost trace, and the text held is always
/// exactly the rendering of that trace.
pub struct ExtraVarsDocBuilder {
    text: String,
    has_entries: bool,
    trace: Ghost<Seq<VarEntry>>,
}

impl ExtraVarsDocBuilder {
    /// The entries written so far, in order.
    pub closed spec fn entries(&self) -> Seq<VarEntry> {
        self.trace@
    }

    /// The text held is the opening brace plus the joined entries.
    pub closed spec fn wf(&self) -> bool {
        &&& self.text@ == "{ "@ + spec_join_entries(self.trace@)
        &&& self.has_entries == (self.trace@.len() > 0)
    }

    pub fn new() -> (r: Self)
        ensures
            r.wf(),
            r.entries() == Seq::<VarEntry>::empty(),
    {
        let r = ExtraVarsDocBuilder {
            text: String::from_str("{ "),
            has_entries: false,
            trace: Ghost(Seq::empty()),
        };
        proof {
            assert(r.text@ =~= "{ "@ + spec_join_entries(r.trace@));
        }
        r
    }

    fn push_separator(&mut self)
        ensures
            final(self).text@ == old(self).text@ + (if old(self).has_entries {
                ", "@
            } else {
                Seq::<char>::empty()
            }),
            final(self).has_entries == old(self).has_entries,
            final(self).trace == old(self).trace,
    {
        if self.has_entries {
            self.text.append(", ");
        } else {
            proof {
                assert(self.text@ =~= self.text@ + Seq::<char>::empty());
            }
        }
    }

    /// Appends `"key": "value"`.
    pub fn add_value(&mut self, key: &str, value: &str)
        requires
            old(self).wf(),
        ensures
            final(self).wf(),
            final(self).entries() == old(self).entries().push(
                VarEntry { key: key@, value: VarValue::Scalar(value@) },
            ),
    {
        self.push_separator();
        self.text.append("\"");
        self.text.append(key);
        self.text.append("\": ");
        self.text.append("\"");
        self.text.append(value);
        self.text.append("\"");
        self.has_entries = true;
        proof {
            let e = VarEntry { key: key@, value: VarValue::Scalar(value@) };
            let es = old(self).trace@.push(e);
            self.trace@ = es;
            assert(es.drop_last() =~= old(self).trace@);
            assert(es.last() == e);
            if old(self).trace@.len() == 0 {
                assert(es.len() == 1);
                assert(es[0] == e);
                assert(self.text@ =~= "{ "@ + spec_join_entries(es));
            } else {
                assert(self.text@ =~= "{ "@ + spec_join_entries(es));
            }
        }
    }

    /// Appends `"key": ["v1", "v2"]`.
    pub fn add_list(&mut self, key: &str, values: &Vec<String>)
        requires
            old(self).wf(),
        ensures
            final(self).wf(),
            final(self).entries() == old(self).entries().push(
                VarEntry { key: key@, value: VarValue::Array(values.deep_view()) },
            ),
    {
        self.push_separator();
        self.text.append("\"");
        self.text.append(key);
        self.text.append("\": ");
        self.text.append("[");
        let ghost base = self.text@;
        let mut i: usize = 0;
        while i < values.len()
            invariant
                i <= values.len(),
                self.text@ == base + spec_join_array_items(
                    values.deep_view().subrange(0, i as int),
                ),
                self.has_entries == old(self).has_entries,
                self.trace == old(self).trace,
            decreases values.len() - i,
        {
            if i > 0 {
                self.text.append(", ");
            }
            self.text.append("\"");
            self.text.append(values[i].as_str());
            self.text.append("\"");
            proof {
                let dv = values.deep_view();
                assert(dv.subrange(0, i + 1).drop_last() =~= dv.subrange(0, i as int));
                assert(dv.subrange(0, i + 1).last() == dv[i as int]);
                assert(dv[i as int] == values@[i as int]@);
                assert(self.text@ =~= base + spec_join_array_items(dv.subrange(0, i + 1)));
            }
            i = i + 1;
        }
        self.text.append("]");
        self.has_entries = true;
        proof {
            let dv = values.deep_view();
            assert(dv.subrange(0, dv.len() as int) =~= dv);
            let e = VarEntry { key: key@, value: VarValue::Array(dv) };
            let es = old(self).trace@.push(e);
            self.trace@ = es;
            assert(es.drop_last() =~= old(self).trace@);
            assert(es.last() == e);
            assert(self.text@ =~= "{ "@ + spec_join_entries(es));
        }
    }

    /// Closes the document and hands back its text.
    pub fn build(self) -> (r: String)
        requires
            self.wf(),
        ensures
            r@ == spec_render_doc(self.entries()),
    {
        let mut text = self.text;
        text.append(" }");
        text
    }
}

/// No rendered document holds a trailing `, ` separator immediately before
/// its closing brace: the document ends in ` }`, and the character before
/// that closing run is never a comma.
pub proof fn lemma_doc_no_trailing_separator(es: Seq<VarEntry>)
    ensures
        spec_render_doc(es).len() >= 4,
        spec_render_doc(es).last() == '}',
        spec_render_doc(es)[spec_render_doc(es).len() - 2] == ' ',
        spec_render_doc(es)[spec_render_doc(es).len() - 3] != ',',
{
    reveal_strlit("{ ");
    reveal_strlit(" }");
    let d = spec_render_doc(es);
    let j = spec_join_entries(es);
    assert(d.len() == 2 + j.len() + 2);
    assert(d.last() == '}');
    assert(d[d.len() - 2] == ' ');
    if es.len() == 0 {
        assert(d[d.len() - 3] == ' ');
    } else {
        lemma_join_entries_last(es);
        assert(d[d.len() - 3] == j.last());
    }
}

/// The joined entries of a non-empty document end with the closing quote or
/// bracket of the last entry's value.
proof fn lemma_join_entries_last(es: Seq<VarEntry>)
    requires
        es.len() > 0,
    ensures
        spec_join_entries(es).len() > 0,
        spec_join_entries(es).last() == '"' || spec_join_entries(es).last() == ']',
    decreases es.len(),
{
    if es.len() == 1 {
        lemma_render_entry_last(es[0]);
        assert(spec_join_entries(es) == spec_render_entry(es[0]));
    } else {
        lemma_render_entry_last(es.last());
        let front = spec_join_entries(es.drop_last()) + ", "@;
        let e = spec_render_entry(es.last());
        assert(spec_join_entries(es) == front + e);
        assert((front + e).last() == e.last());
    }
}

/// Every rendered entry ends with `"` (a scalar) or `]` (an array).
proof fn lemma_render_entry_last(e: VarEntry)
    ensures
        spec_render_entry(e).len() > 0,
        spec_render_entry(e).last() == '"' || spec_render_entry(e).last() == ']',
{
    reveal_strlit("\"");
    reveal_strlit("[");
    reveal_strlit("]");
    let v = spec_render_value(e.value);
    match e.value {
        VarValue::Scalar(s) => {
            assert(v.last() == '"');
        },
        VarValue::Array(items) => {
            assert(v.last() == ']');
        },
    }
    assert(spec_render_entry(e).last() == v.last());
}

} // verus!
