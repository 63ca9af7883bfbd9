//! JSON values, as far as messages and notices are made of them.
use crate::text::same_text;
use vstd::prelude::*;

verus! {

/// A JSON value. A number is kept as it is written; the members of an object are
/// kept in order, each name once.
#[derive(Debug)]
pub enum Json {
    Null,
    Bool(bool),
    Number(String),
    Text(String),
    Array(Vec<Json>),
    Object(Vec<(String, Json)>),
}

/// The value of the first member called `key`.
pub open spec fn member(members: Seq<(String, Json)>, key: Seq<char>) -> Option<Json>
    decreases members.len(),
{
    if members.len() == 0 {
        None
    } else if members[0].0@ == key {
        Some(members[0].1)
    } else {
        member(members.drop_first(), key)
    }
}

/// Whether no name stands twice among the members of an object.
pub open spec fn names_differ(members: Seq<(String, Json)>) -> bool {
    forall|i: int, j: int|
        0 <= i < j < members.len() ==> (#[trigger] members[i]).0@ != (#[trigger] members[j]).0@
}

/// Whether some member has the given name and the given text for its value, wherever it
/// stands.
pub open spec fn holds_text(members: Seq<(String, Json)>, name: Seq<char>, text: Seq<char>) -> bool {
    exists|i: int|
        0 <= i < members.len() && (#[trigger] members[i]).0@ == name && (members[i].1 matches Json::Text(
            s,
        ) && s@ == text)
}

/// A member is found by its name, wherever it stands: the first that bears the name, and
/// none if and only if none bears it.
pub proof fn a_member_is_found_by_its_name(members: Seq<(String, Json)>, key: Seq<char>)
    ensures
        match member(members, key) {
            Some(value) => exists|i: int|
                0 <= i < members.len() && (#[trigger] members[i]).0@ == key && members[i].1 == value
                    && forall|j: int| 0 <= j < i ==> (#[trigger] members[j]).0@ != key,
            None => forall|i: int| 0 <= i < members.len() ==> (#[trigger] members[i]).0@ != key,
        },
    decreases members.len(),
{
    if members.len() > 0 {
        if members[0].0@ != key {
            let rest = members.drop_first();
            a_member_is_found_by_its_name(rest, key);
            match member(rest, key) {
                Some(value) => {
                    let i = choose|i: int|
                        0 <= i < rest.len() && (#[trigger] rest[i]).0@ == key && rest[i].1 == value
                            && forall|j: int| 0 <= j < i ==> (#[trigger] rest[j]).0@ != key;
                    assert(members[i + 1] == rest[i]);
                    assert forall|j: int| 0 <= j < i + 1 implies (#[trigger] members[j]).0@
                        != key by {
                        if j > 0 {
                            assert(members[j] == rest[j - 1]);
                        }
                    }
                },
                None => {
                    assert forall|i: int| 0 <= i < members.len() implies (#[trigger] members[i]).0@
                        != key by {
                        if i > 0 {
                            assert(members[i] == rest[i - 1]);
                        }
                    }
                },
            }
        } else {
            assert(members[0].0@ == key && members[0].1 == member(members, key)->0);
        }
    }
}

/// In an object with different names the text of a name is the text of the member that
/// bears it, in whichever order the members stand.
pub proof fn a_text_is_found_by_its_name(members: Seq<(String, Json)>, v: Json, name: Seq<char>)
    requires
        names_differ(members),
        v matches Json::Object(m) && m@ == members,
    ensures
        match v.text_field(name) {
            Some(text) => holds_text(members, name, text),
            None => forall|text: Seq<char>| !#[trigger] holds_text(members, name, text),
        },
        forall|text: Seq<char>| #[trigger]
            holds_text(members, name, text) ==> v.text_field(name) == Some(text),
{
    a_member_is_found_by_its_name(members, name);
    assert forall|text: Seq<char>| #[trigger] holds_text(members, name, text) implies v.text_field(
        name,
    ) == Some(text) by {
        let i = choose|i: int|
            0 <= i < members.len() && (#[trigger] members[i]).0@ == name && (
            members[i].1 matches Json::Text(s) && s@ == text);
        assert(members[i].0@ == name);
        let value = member(members, name)->0;
        let k = choose|k: int|
            0 <= k < members.len() && (#[trigger] members[k]).0@ == name && members[k].1 == value
                && forall|j: int| 0 <= j < k ==> (#[trigger] members[j]).0@ != name;
        assert(k == i) by {
            if k < i {
                assert(members[k].0@ != members[i].0@);
            } else if i < k {
                assert(members[i].0@ != members[k].0@);
            }
        }
    }
    match v.text_field(name) {
        Some(text) => {
            let value = member(members, name)->0;
            let k = choose|k: int|
                0 <= k < members.len() && (#[trigger] members[k]).0@ == name && members[k].1 == value
                    && forall|j: int| 0 <= j < k ==> (#[trigger] members[j]).0@ != name;
            assert(members[k].1 matches Json::Text(s) && s@ == text);
            assert(holds_text(members, name, text));
        },
        None => {},
    }
}

/// Only an object has members, and only a text among them is found as a text.
pub proof fn only_objects_have_texts_by_name(v: Json, key: Seq<char>)
    ensures
        !(v is Object) ==> v.field(key) is None && v.text_field(key) is None,
        v is Object ==> v.field(key) == member(v->Object_0@, key),
        match v.field(key) {
            Some(Json::Text(s)) => v.text_field(key) == Some(s@),
            _ => v.text_field(key) is None,
        },
{
}

/// An object made of texts has just those members, by name and text, in that order.
pub proof fn a_text_object_has_its_members(
    v: Json,
    texts: Seq<(Seq<char>, Seq<char>)>,
    i: int,
)
    requires
        is_text_object(v, texts),
        0 <= i < texts.len(),
    ensures
        v matches Json::Object(members) && members@.len() == texts.len() && members@[i].0@
            == texts[i].0 && (members@[i].1 matches Json::Text(s) && s@ == texts[i].1),
{
}

/// Whether `v` is the object whose members are `texts`, name and text, in that order.
pub open spec fn is_text_object(v: Json, texts: Seq<(Seq<char>, Seq<char>)>) -> bool {
    &&& v is Object
    &&& v->Object_0@.len() == texts.len()
    &&& forall|i: int|
        0 <= i < texts.len() ==> {
            &&& (#[trigger] v->Object_0@[i]).0@ == texts[i].0
            &&& v->Object_0@[i].1.text() == Some(texts[i].1)
        }
}

impl Json {
    /// The member called `key`, if this is an object that has one.
    pub open spec fn field(self, key: Seq<char>) -> Option<Json> {
        match self {
            Json::Object(members) => member(members@, key),
            _ => None,
        }
    }

    /// The text, if this is one.
    pub open spec fn text(self) -> Option<Seq<char>> {
        match self {
            Json::Text(s) => Some(s@),
            _ => None,
        }
    }

    /// The text of the member called `key`, if this is an object where that member is a text.
    pub open spec fn text_field(self, key: Seq<char>) -> Option<Seq<char>> {
        match self.field(key) {
            Some(v) => v.text(),
            None => None,
        }
    }

    /// Looks a member of an object up.
    pub fn get(&self, key: &str) -> (r: Option<&Json>)
        ensures
            match r {
                Some(v) => self.field(key@) == Some(*v),
                None => self.field(key@) is None,
            },
            match *self {
                Json::Object(members) => match r {
                    Some(v) => exists|i: int|
                        0 <= i < members@.len() && (#[trigger] members@[i]).0@ == key@
                            && members@[i].1 == *v && forall|j: int|
                            0 <= j < i ==> (#[trigger] members@[j]).0@ != key@,
                    None => forall|i: int|
                        0 <= i < members@.len() ==> (#[trigger] members@[i]).0@ != key@,
                },
                _ => r is None,
            },
    {
        match self {
            Json::Object(members) => {
                let mut i: usize = 0;
                assert(members@.skip(0) =~= members@);
                while i < members.len()
                    invariant
                        i <= members@.len(),
                        *self == Json::Object(*members),
                        self.field(key@) == member(members@.skip(i as int), key@),
                        forall|j: int| 0 <= j < i ==> (#[trigger] members@[j]).0@ != key@,
                    decreases members@.len() - i,
                {
                    assert(members@.skip(i as int)[0] == members@[i as int]);
                    assert(members@.skip(i as int).drop_first() =~= members@.skip(i + 1));
                    if same_text(members[i].0.as_str(), key) {
                        return Some(&members[i].1);
                    }
                    i += 1;
                }
                None
            },
            _ => None,
        }
    }

    /// The text, if this is one.
    pub fn as_str(&self) -> (r: Option<&str>)
        ensures
            match r {
                Some(s) => self.text() == Some(s@),
                None => self.text() is None,
            },
            match *self {
                Json::Text(text) => r matches Some(s) && s@ == text@,
                _ => r is None,
            },
    {
        match self {
            Json::Text(s) => Some(s.as_str()),
            _ => None,
        }
    }

    /// The text of the member called `key`, if this is an object where that member is a text.
    pub fn get_text(&self, key: &str) -> (r: Option<&str>)
        ensures
            match r {
                Some(s) => self.text_field(key@) == Some(s@),
                None => self.text_field(key@) is None,
            },
            !(*self is Object) ==> r is None,
            match self.field(key@) {
                Some(Json::Text(text)) => r matches Some(s) && s@ == text@,
                _ => r is None,
            },
            *self is Object && names_differ(self->Object_0@) ==> match r {
                Some(s) => holds_text(self->Object_0@, key@, s@),
                None => forall|text: Seq<char>| !#[trigger] holds_text(
                    self->Object_0@,
                    key@,
                    text,
                ),
            },
    {
        proof {
            if *self is Object && names_differ(self->Object_0@) {
                a_text_is_found_by_its_name(self->Object_0@, *self, key@);
            }
        }
        match self.get(key) {
            Some(v) => v.as_str(),
            None => None,
        }
    }
}

/// A member with a text for its value.
pub fn text_member(name: &str, value: &str) -> (m: (String, Json))
    ensures
        m.0@ == name@,
        m.1.text() == Some(value@),
        m.1 matches Json::Text(s) && s@ == value@,
{
    (name.to_owned(), Json::Text(value.to_owned()))
}

} // verus!
