//! Plain single-string carrier types for collected values, and the basic
//! record that groups them.

use vstd::prelude::*;

verus! {

/// A user-agent string carried as a plain value.
#[derive(Debug, Clone)]
pub struct UserAgent(String);

/// A referrer string carried as a plain value.
#[derive(Debug, Clone)]
pub struct Referrer(String);

impl View for UserAgent {
    type V = Seq<char>;

    closed spec fn view(&self) -> Seq<char> {
        self.0@
    }
}

impl UserAgent {
    /// Creates an object containing one `String`.
    pub fn new(val: String) -> (r: Self)
        ensures
            r@ == val@,
    {
        UserAgent(val)
    }

    /// Returns true if self holds the empty string.
    pub fn is_empty(&self) -> (r: bool)
        ensures
            r == (self@.len() == 0),
    {
        self.0.as_str().is_empty()
    }

    /// Returns a reference (`&str`) of the contained `String`.
    pub fn get(&self) -> (r: &str)
        ensures
            r@ == self@,
    {
        self.0.as_str()
    }
}

impl PartialEq for UserAgent {
    fn eq(&self, other: &Self) -> (r: bool) {
        self.0 == other.0
    }
}

impl vstd::std_specs::cmp::PartialEqSpecImpl for UserAgent {
    open spec fn obeys_eq_spec() -> bool {
        true
    }

    open spec fn eq_spec(&self, other: &Self) -> bool {
        self@ == other@
    }
}

impl Default for UserAgent {
    fn default() -> (r: Self)
        ensures
            r@ == Seq::<char>::empty(),
    {
        UserAgent(String::new())
    }
}

impl View for Referrer {
    type V = Seq<char>;

    closed spec fn view(&self) -> Seq<char> {
        self.0@
    }
}

impl Referrer {
    /// Creates an object containing one `String`.
    pub fn new(val: String) -> (r: Self)
        ensures
            r@ == val@,
    {
        Referrer(val)
    }

    /// Returns true if self holds the empty string.
    pub fn is_empty(&self) -> (r: bool)
        ensures
            r == (self@.len() == 0),
    {
        self.0.as_str().is_empty()
    }

    /// Returns a reference (`&str`) of the contained `String`.
    pub fn get(&self) -> (r: &str)
        ensures
            r@ == self@,
    {
        self.0.as_str()
    }
}

impl PartialEq for Referrer {
    fn eq(&self, other: &Self) -> (r: bool) {
        self.0 == other.0
    }
}

impl vstd::std_specs::cmp::PartialEqSpecImpl for Referrer {
    open spec fn obeys_eq_spec() -> bool {
        true
    }

    open spec fn eq_spec(&self, other: &Self) -> bool {
        self@ == other@
    }
}

impl Default for Referrer {
    fn default() -> (r: Self)
        ensures
            r@ == Seq::<char>::empty(),
    {
        Referrer(String::new())
    }
}

/// The basic collected values: the user-agent string and the referrer.
#[derive(Debug, Clone)]
pub struct Basic {
    pub user_agent: UserAgent,
    pub referrer: Referrer,
}

impl Default for Basic {
    fn default() -> (r: Self)
        ensures
            r.user_agent@ == Seq::<char>::empty(),
            r.referrer@ == Seq::<char>::empty(),
    {
        Basic { user_agent: UserAgent::new(String::new()), referrer: Referrer::new(String::new()) }
    }
}

} // verus!
