//! The private cookies of one browser session, as this crate reads and
//! writes them. The host keeps them encrypted and signed; what is held here
//! is what the host has authenticated and decrypted, and what it is to send
//! back in the same way.

use vstd::prelude::*;

use crate::text::str_eq;

verus! {

/// The `SameSite` attribute of a cookie.
#[derive(Clone, Copy, Debug, PartialEq, Eq, Structural)]
pub enum SameSite {
    /// Sent with same-site requests only.
    Strict,
    /// Sent with same-site requests and with top-level navigation to the site.
    Lax,
    /// Sent with every request.
    Unrestricted,
}

/// A cookie: a name, a value, and `SameSite` where it was set.
#[derive(Clone, Debug, PartialEq, Eq)]
pub struct Cookie {
    pub name: String,
    pub value: String,
    pub same_site: Option<SameSite>,
}

/// What a `Cookie` says.
pub struct CookieText {
    pub name: Seq<char>,
    pub value: Seq<char>,
    pub same_site: Option<SameSite>,
}

impl View for Cookie {
    type V = CookieText;

    open spec fn view(&self) -> CookieText {
        CookieText { name: self.name@, value: self.value@, same_site: self.same_site }
    }
}

/// What became of a cookie between two moments.
#[derive(Clone, Debug, PartialEq, Eq)]
pub enum Change {
    /// The cookie is as it was: there with the same value and attribute, or
    /// not there.
    Unchanged,
    /// The cookie was added: it is there now, and was not there before, or
    /// not as it is now.
    Added(Cookie),
    /// The cookie was removed: it was there before, and is not there now.
    Removed,
}

/// What a `Change` says.
pub enum ChangeText {
    Unchanged,
    Added(CookieText),
    Removed,
}

impl View for Change {
    type V = ChangeText;

    open spec fn view(&self) -> ChangeText {
        match self {
            Change::Unchanged => ChangeText::Unchanged,
            Change::Added(cookie) => ChangeText::Added(cookie@),
            Change::Removed => ChangeText::Removed,
        }
    }
}

/// What became of the cookie `name` between `before` and `after`.
pub open spec fn change_between(
    before: Map<Seq<char>, CookieText>,
    after: Map<Seq<char>, CookieText>,
    name: Seq<char>,
) -> ChangeText {
    if after.contains_key(name) {
        if before.get(name) == Some(after[name]) {
            ChangeText::Unchanged
        } else {
            ChangeText::Added(after[name])
        }
    } else if before.contains_key(name) {
        ChangeText::Removed
    } else {
        ChangeText::Unchanged
    }
}

impl Cookie {
    /// Whether two cookies say the same: the same name, the same value and
    /// the same `SameSite`.
    pub fn same_as(&self, other: &Cookie) -> (same: bool)
        ensures
            same == (self@ == other@),
    {
        let same_site = match (self.same_site, other.same_site) {
            (Some(a), Some(b)) => a == b,
            (None, None) => true,
            _ => false,
        };
        same_site && str_eq(self.name.as_str(), other.name.as_str()) && str_eq(
            self.value.as_str(),
            other.value.as_str(),
        )
    }
}

/// The private cookies of a session, each under its name.
#[derive(Clone, Debug)]
pub struct Cookies {
    jar: Vec<Cookie>,
}

/// The cookies that a list stands for, by name: a later cookie replaces an
/// earlier one of the same name.
spec fn jar_map(jar: Seq<Cookie>) -> Map<Seq<char>, CookieText>
    decreases jar.len(),
{
    if jar.len() == 0 {
        Map::empty()
    } else {
        jar_map(jar.drop_last()).insert(jar.last()@.name, jar.last()@)
    }
}

/// A name is in the map of a list exactly if a cookie of the list has it.
proof fn lemma_jar_names(jar: Seq<Cookie>, name: Seq<char>)
    ensures
        jar_map(jar).contains_key(name) <==> exists|i: int|
            0 <= i < jar.len() && (#[trigger] jar[i])@.name == name,
    decreases jar.len(),
{
    if jar.len() > 0 {
        let front = jar.drop_last();
        lemma_jar_names(front, name);
        if jar_map(jar).contains_key(name) {
            if jar.last()@.name == name {
                assert(jar[jar.len() - 1]@.name == name);
            } else {
                let i = choose|i: int| 0 <= i < front.len() && (#[trigger] front[i])@.name == name;
                assert(jar[i]@.name == name);
            }
        }
        if exists|i: int| 0 <= i < jar.len() && (#[trigger] jar[i])@.name == name {
            let i = choose|i: int| 0 <= i < jar.len() && (#[trigger] jar[i])@.name == name;
            if i < jar.len() - 1 {
                assert(front[i]@.name == name);
            }
        }
    }
}

/// Taking one cookie of a name out of a list changes nothing for the other
/// names.
proof fn lemma_jar_without(jar: Seq<Cookie>, i: int)
    requires
        0 <= i < jar.len(),
    ensures
        jar_map(jar.remove(i)).remove(jar[i]@.name) == jar_map(jar).remove(jar[i]@.name),
    decreases jar.len(),
{
    let name = jar[i]@.name;
    let front = jar.drop_last();
    if i == jar.len() - 1 {
        assert(jar.remove(i) == front);
        assert(jar_map(front).insert(name, jar.last()@).remove(name) == jar_map(front).remove(
            name,
        ));
    } else {
        let rest = jar.remove(i);
        assert(rest.drop_last() == front.remove(i));
        assert(rest.last() == jar.last());
        lemma_jar_without(front, i);
        let last = jar.last()@;
        assert(jar_map(front.remove(i)).insert(last.name, last).remove(name) == jar_map(
            front,
        ).insert(last.name, last).remove(name)) by {
            if last.name == name {
                assert(jar_map(front.remove(i)).insert(last.name, last).remove(name) == jar_map(
                    front.remove(i),
                ).remove(name));
                assert(jar_map(front).insert(last.name, last).remove(name) == jar_map(
                    front,
                ).remove(name));
            } else {
                assert(jar_map(front.remove(i)).insert(last.name, last).remove(name) == jar_map(
                    front.remove(i),
                ).remove(name).insert(last.name, last));
                assert(jar_map(front).insert(last.name, last).remove(name) == jar_map(
                    front,
                ).remove(name).insert(last.name, last));
            }
        }
    }
}

impl View for Cookies {
    type V = Map<Seq<char>, CookieText>;

    closed spec fn view(&self) -> Map<Seq<char>, CookieText> {
        jar_map(self.jar@)
    }
}

impl Cookies {
    /// A session without cookies.
    pub fn new() -> (cookies: Cookies)
        ensures
            cookies@ == Map::<Seq<char>, CookieText>::empty(),
    {
        Cookies { jar: Vec::new() }
    }

    /// The private cookie of that name, if the session has one.
    pub fn get_private(&self, name: &str) -> (cookie: Option<&Cookie>)
        ensures
            match cookie {
                Some(c) => self@.get(name@) == Some(c@),
                None => !self@.contains_key(name@),
            },
    {
        let mut i: usize = self.jar.len();
        proof {
            assert(self.jar@.take(i as int) == self.jar@);
        }
        while i > 0
            invariant
                i <= self.jar@.len(),
                self@.get(name@) == jar_map(self.jar@.take(i as int)).get(name@),
            decreases i,
        {
            proof {
                assert(self.jar@.take(i as int).drop_last() == self.jar@.take(i - 1));
            }
            i -= 1;
            if str_eq(self.jar[i].name.as_str(), name) {
                return Some(&self.jar[i]);
            }
        }
        None
    }

    /// Sets a private cookie, in place of the one of the same name.
    pub fn add_private(&mut self, cookie: Cookie)
        ensures
            final(self)@ == old(self)@.insert(cookie@.name, cookie@),
    {
        proof {
            assert(self.jar@.push(cookie).drop_last() == self.jar@);
        }
        self.jar.push(cookie);
    }

    /// What became of the cookie `name` since the session was as `before`:
    /// what the host has to tell the browser about it.
    pub fn change_since(&self, before: &Cookies, name: &str) -> (change: Change)
        ensures
            change@ == change_between(before@, self@, name@),
    {
        match self.get_private(name) {
            Some(now) => {
                let same = match before.get_private(name) {
                    Some(then) => now.same_as(then),
                    None => false,
                };
                if same {
                    Change::Unchanged
                } else {
                    Change::Added(
                        Cookie {
                            name: now.name.clone(),
                            value: now.value.clone(),
                            same_site: now.same_site,
                        },
                    )
                }
            },
            None => match before.get_private(name) {
                Some(_) => Change::Removed,
                None => Change::Unchanged,
            },
        }
    }

    /// Removes the cookie of that name, if the session has one.
    pub fn remove(&mut self, name: &str)
        ensures
            final(self)@ == old(self)@.remove(name@),
    {
        let mut i: usize = 0;
        while i < self.jar.len()
            invariant
                i <= self.jar@.len(),
                jar_map(self.jar@).remove(name@) == jar_map(old(self).jar@).remove(name@),
                forall|j: int| 0 <= j < i ==> (#[trigger] self.jar@[j])@.name != name@,
            decreases self.jar@.len() - i,
        {
            if str_eq(self.jar[i].name.as_str(), name) {
                proof {
                    lemma_jar_without(self.jar@, i as int);
                }
                self.jar.remove(i);
            } else {
                i += 1;
            }
        }
        proof {
            lemma_jar_names(self.jar@, name@);
            assert(jar_map(self.jar@).remove(name@) == jar_map(self.jar@));
        }
    }
}

} // verus!
