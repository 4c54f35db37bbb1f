//! Writing JSON objects member by member.
//!
//! An object is written from its members in their order. A member is an
//! attribute, whose rule says what happens where the source did not give
//! it, or a list of objects that were written before. String values are
//! quoted and escaped by `serde_json`.

use vstd::prelude::*;
use vstd::string::StringExecFns;
use crate::bundle::opt_texts;
use crate::text::same;

verus! {

/// The text that stands in for an implied attribute that was not given.
/// It is never written.
pub open spec fn sentinel() -> Seq<char> {
    "#IMPLIED"@
}

/// What becomes of an attribute that the source did not give.
pub enum Rule {
    /// The attribute must be given: without it nothing can be written.
    Required,
    /// The attribute takes this value.
    Defaulted(Seq<char>),
    /// The attribute is left out. So is one given as the sentinel.
    Implied,
}

/// A member of an object.
pub enum Member {
    /// An attribute: its key, its rule and the value that the source gave.
    Attr { key: Seq<char>, rule: Rule, given: Option<Seq<char>> },
    /// A list of objects, each already written as JSON, or `None` where
    /// one could not be written.
    List { key: Seq<char>, items: Seq<Option<Seq<char>>> },
}

/// What an attribute comes to.
pub enum Settled {
    /// It is written with this value.
    Value(Seq<char>),
    /// It is left out.
    Omitted,
    /// It is required and was not given.
    Missing,
}

/// What a member comes to.
pub enum Written {
    /// This text is written.
    Text(Seq<char>),
    /// Nothing is written.
    Nothing,
    /// The object cannot be written.
    Failure,
}

/// The JSON string literal for `s`, quotes included, as
/// `serde_json::to_string` writes it; `None` where it fails.
pub uninterp spec fn json_text(s: Seq<char>) -> Option<Seq<char>>;

/// What the attribute comes to under its rule.
pub open spec fn settled(rule: Rule, given: Option<Seq<char>>) -> Settled {
    match rule {
        Rule::Required => match given {
            Some(v) => Settled::Value(v),
            None => Settled::Missing,
        },
        Rule::Defaulted(d) => match given {
            Some(v) => Settled::Value(v),
            None => Settled::Value(d),
        },
        Rule::Implied => match given {
            Some(v) => if v == sentinel() {
                Settled::Omitted
            } else {
                Settled::Value(v)
            },
            None => Settled::Omitted,
        },
    }
}

/// The key of a member as it is written: quoted, then a colon.
pub open spec fn label(key: Seq<char>) -> Seq<char> {
    seq!['"'] + key + seq!['"', ':']
}

/// The items with a comma between one and the next; `None` where an item
/// is missing.
pub open spec fn joined(items: Seq<Option<Seq<char>>>) -> Option<Seq<char>>
    decreases items.len(),
{
    if items.len() == 0 {
        Some(Seq::empty())
    } else {
        match (joined(items.drop_last()), items.last()) {
            (Some(h), Some(t)) => Some(
                if items.len() == 1 {
                    t
                } else {
                    h + seq![','] + t
                },
            ),
            _ => None,
        }
    }
}

/// What the member comes to.
pub open spec fn member_text(m: Member) -> Written {
    match m {
        Member::Attr { key, rule, given } => match settled(rule, given) {
            Settled::Value(v) => match json_text(v) {
                Some(q) => Written::Text(label(key) + q),
                None => Written::Failure,
            },
            Settled::Omitted => Written::Nothing,
            Settled::Missing => Written::Failure,
        },
        Member::List { key, items } => match joined(items) {
            Some(t) => Written::Text(label(key) + seq!['['] + t + seq![']']),
            None => Written::Failure,
        },
    }
}

/// What stands between the braces of the object with these members: the
/// members that are written, with a comma between one and the next.
pub open spec fn body(members: Seq<Member>) -> Option<Seq<char>>
    decreases members.len(),
{
    if members.len() == 0 {
        Some(Seq::empty())
    } else {
        match body(members.drop_last()) {
            Some(b) => match member_text(members.last()) {
                Written::Text(t) => Some(
                    if b.len() == 0 {
                        t
                    } else {
                        b + seq![','] + t
                    },
                ),
                Written::Nothing => Some(b),
                Written::Failure => None,
            },
            None => None,
        }
    }
}

/// The JSON object with these members; `None` where it cannot be written.
pub open spec fn object_json(members: Seq<Member>) -> Option<Seq<char>> {
    match body(members) {
        Some(b) => Some(seq!['{'] + b + seq!['}']),
        None => None,
    }
}

/// What reading the written object back gives for the member `m`: an
/// attribute that was written has the value that was written, one that
/// was left out is not given, and a list holds what it held.
pub open spec fn read_back(m: Member) -> Member {
    match m {
        Member::Attr { key, rule, given } => Member::Attr {
            key,
            rule,
            given: match settled(rule, given) {
                Settled::Value(v) => Some(v),
                _ => None,
            },
        },
        Member::List { key, items } => m,
    }
}

/// Writing is idempotent: the members read back from what was written are
/// written as the same text.
pub proof fn law_written_again_is_the_same(members: Seq<Member>)
    ensures
        body(members.map_values(|m: Member| read_back(m))) == body(members),
        object_json(members.map_values(|m: Member| read_back(m))) == object_json(members),
    decreases members.len(),
{
    let again = members.map_values(|m: Member| read_back(m));
    if members.len() > 0 {
        let head = members.drop_last();
        law_written_again_is_the_same(head);
        assert(again.drop_last() == head.map_values(|m: Member| read_back(m)));
        assert(again.last() == read_back(members.last()));
        assert(member_text(read_back(members.last())) == member_text(members.last()));
    }
}

/// The sentinel is never written: an implied attribute that is given as
/// the sentinel is left out like one that is not given.
pub proof fn law_sentinel_is_not_written(key: Seq<char>)
    ensures
        member_text(Member::Attr { key, rule: Rule::Implied, given: Some(sentinel()) }) is Nothing,
        member_text(Member::Attr { key, rule: Rule::Implied, given: None }) is Nothing,
{
}

/// The text of an optional string.
pub open spec fn opt_string(s: Option<String>) -> Option<Seq<char>> {
    match s {
        Some(t) => Some(t@),
        None => None,
    }
}

/// The JSON string literal for `s`, from `serde_json::to_string`. The
/// contract gives its result a name and promises nothing more of it.
#[verifier::external_body]
fn json_string(s: &str) -> (r: Option<String>)
    ensures
        opt_string(r) == json_text(s@),
{
    serde_json::to_string(s).ok()
}

/// Checks whether a value is the sentinel, which is left out.
pub fn implied(val: &String) -> (r: bool)
    ensures
        r == (val@ == sentinel()),
{
    same(val.as_str(), "#IMPLIED")
}

/// Writes a member whose value is already written as JSON: the key between
/// quotes, a colon and the value.
pub fn labelled(key: &str, value: &str) -> (r: String)
    ensures
        r@ == label(key@) + value@,
{
    let mut t = String::new();
    t.push('"');
    t.append(key);
    t.push('"');
    t.push(':');
    t.append(value);
    assert(t@ =~= label(key@) + value@);
    t
}

/// Writes one object.
pub struct ObjectWriter {
    /// The opening brace and the members written so far.
    out: String,
    /// Whether no member was written yet.
    first: bool,
    /// Whether every member so far could be written.
    ok: bool,
    /// The members handed over so far.
    members: Ghost<Seq<Member>>,
}

impl ObjectWriter {
    /// The members handed over so far.
    pub closed spec fn members(&self) -> Seq<Member> {
        self.members@
    }

    /// Whether the writer holds what its members come to.
    pub closed spec fn wf(&self) -> bool {
        match body(self.members@) {
            Some(b) => self.ok && self.out@ == seq!['{'] + b && self.first == (b.len() == 0),
            None => !self.ok,
        }
    }

    /// Starts an object without members.
    pub fn new() -> (w: ObjectWriter)
        ensures
            w.wf(),
            w.members() == Seq::<Member>::empty(),
    {
        let mut out = String::new();
        out.push('{');
        let w = ObjectWriter { out, first: true, ok: true, members: Ghost(Seq::empty()) };
        assert(w.out@ =~= seq!['{'] + Seq::<char>::empty());
        w
    }

    /// Appends the member `m`, which comes to the text `text`.
    fn put(&mut self, Ghost(m): Ghost<Member>, text: Option<String>)
        requires
            old(self).wf(),
            match member_text(m) {
                Written::Text(t) => opt_string(text) == Some(t) && t.len() > 0,
                Written::Nothing => false,
                Written::Failure => text is None,
            },
        ensures
            final(self).wf(),
            final(self).members() == old(self).members().push(m),
    {
        let ghost before = self.members@;
        self.members = Ghost(before.push(m));
        assert(before.push(m).drop_last() == before);
        if self.ok {
            match text {
                Some(t) => {
                    if !self.first {
                        self.out.push(',');
                    }
                    self.out.append(t.as_str());
                    self.first = false;
                    assert(self.out@ =~= seq!['{'] + body(self.members@).unwrap());
                },
                None => {
                    self.ok = false;
                },
            }
        }
    }

    /// Notes the member `m`, which is left out or follows a failure.
    fn skip(&mut self, Ghost(m): Ghost<Member>)
        requires
            old(self).wf(),
            member_text(m) is Nothing,
        ensures
            final(self).wf(),
            final(self).members() == old(self).members().push(m),
    {
        let ghost before = self.members@;
        self.members = Ghost(before.push(m));
        assert(before.push(m).drop_last() == before);
    }

    /// The text of the attribute `key` with the value `value`.
    fn attr_text(key: &str, value: &str) -> (r: Option<String>)
        ensures
            match json_text(value@) {
                Some(q) => opt_string(r) == Some(label(key@) + q),
                None => r is None,
            },
            r matches Some(t) ==> t@.len() > 0,
    {
        match json_string(value) {
            Some(q) => Some(labelled(key, q.as_str())),
            None => None,
        }
    }

    /// Writes an attribute that must be given.
    pub fn required(&mut self, key: &str, given: &Option<String>)
        requires
            old(self).wf(),
        ensures
            final(self).wf(),
            final(self).members() == old(self).members().push(
                Member::Attr { key: key@, rule: Rule::Required, given: opt_string(*given) },
            ),
    {
        let ghost m = Member::Attr { key: key@, rule: Rule::Required, given: opt_string(*given) };
        match given {
            Some(v) => {
                let text = Self::attr_text(key, v.as_str());
                self.put(Ghost(m), text);
            },
            None => {
                self.put(Ghost(m), None);
            },
        }
    }

    /// Writes an attribute that takes the value `default` where it is not
    /// given.
    pub fn defaulted(&mut self, key: &str, given: &Option<String>, default: String)
        requires
            old(self).wf(),
        ensures
            final(self).wf(),
            final(self).members() == old(self).members().push(
                Member::Attr {
                    key: key@,
                    rule: Rule::Defaulted(default@),
                    given: opt_string(*given),
                },
            ),
    {
        let ghost m = Member::Attr {
            key: key@,
            rule: Rule::Defaulted(default@),
            given: opt_string(*given),
        };
        let text = match given {
            Some(v) => Self::attr_text(key, v.as_str()),
            None => Self::attr_text(key, default.as_str()),
        };
        self.put(Ghost(m), text);
    }

    /// Writes an attribute that is left out where it is not given.
    pub fn implied(&mut self, key: &str, given: &Option<String>)
        requires
            old(self).wf(),
        ensures
            final(self).wf(),
            final(self).members() == old(self).members().push(
                Member::Attr { key: key@, rule: Rule::Implied, given: opt_string(*given) },
            ),
    {
        let ghost m = Member::Attr { key: key@, rule: Rule::Implied, given: opt_string(*given) };
        match given {
            Some(v) => {
                if implied(v) {
                    self.skip(Ghost(m));
                } else {
                    let text = Self::attr_text(key, v.as_str());
                    self.put(Ghost(m), text);
                }
            },
            None => {
                self.skip(Ghost(m));
            },
        }
    }

    /// Writes a list of objects that were written before.
    pub fn list(&mut self, key: &str, items: &Vec<Option<String>>)
        requires
            old(self).wf(),
        ensures
            final(self).wf(),
            final(self).members() == old(self).members().push(
                Member::List { key: key@, items: opt_texts(items@) },
            ),
    {
        let ghost all = opt_texts(items@);
        let ghost m = Member::List { key: key@, items: all };
        let mut t = String::new();
        t.push('"');
        t.append(key);
        t.push('"');
        t.push(':');
        t.push('[');
        let ghost head = label(key@) + seq!['['];
        assert(t@ =~= head);
        let mut good = true;
        let mut i: usize = 0;
        assert(all.subrange(0, 0) =~= Seq::empty());
        while i < items.len()
            invariant
                i <= items.len(),
                all == opt_texts(items@),
                match joined(all.subrange(0, i as int)) {
                    Some(j) => good && t@ == head + j,
                    None => !good,
                },
            decreases items.len() - i,
        {
            proof {
                assert(all.subrange(0, i + 1).drop_last() == all.subrange(0, i as int));
                assert(all.subrange(0, i + 1).last() == opt_string(items@[i as int]));
            }
            if good {
                match &items[i] {
                    Some(item) => {
                        if i > 0 {
                            t.push(',');
                        }
                        t.append(item.as_str());
                        assert(t@ =~= head + joined(all.subrange(0, i + 1)).unwrap());
                    },
                    None => {
                        good = false;
                    },
                }
            }
            i += 1;
        }
        assert(all.subrange(0, i as int) == all);
        if good {
            t.push(']');
            assert(t@ =~= head + joined(all).unwrap() + seq![']']);
            self.put(Ghost(m), Some(t));
        } else {
            self.put(Ghost(m), None);
        }
    }

    /// Closes the object and hands it out, if it could be written.
    pub fn finish(self) -> (r: Option<String>)
        requires
            self.wf(),
        ensures
            opt_string(r) == object_json(self.members()),
    {
        if self.ok {
            let mut out = self.out;
            out.push('}');
            Some(out)
        } else {
            None
        }
    }
}

} // verus!
