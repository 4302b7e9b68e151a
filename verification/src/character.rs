use vstd::prelude::*;
use vstd::std_specs::cmp::PartialEqSpec;

verus! {

/// Non-empty text identifying a character uniquely within a repository.
/// Immutable once constructed; equality is value equality.
#[derive(Debug)]
pub struct CharacterName(String);

impl View for CharacterName {
    type V = Seq<char>;

    closed spec fn view(&self) -> Seq<char> {
        self.0@
    }
}

impl CharacterName {
    pub fn new(name: &str) -> (r: Self)
        requires
            name@.len() > 0,
        ensures
            r@ == name@,
    {
        Self(name.to_owned())
    }

    pub fn as_str(&self) -> (r: &str)
        ensures
            r@ == self@,
    {
        self.0.as_str()
    }
}

impl Clone for CharacterName {
    fn clone(&self) -> (r: Self)
        ensures
            r@ == self@,
    {
        Self(self.0.clone())
    }
}

impl PartialEq for CharacterName {
    fn eq(&self, other: &Self) -> (r: bool) {
        self.0 == other.0
    }
}

impl Eq for CharacterName {}

impl vstd::std_specs::cmp::PartialEqSpecImpl for CharacterName {
    open spec fn obeys_eq_spec() -> bool {
        true
    }

    open spec fn eq_spec(&self, other: &Self) -> bool {
        self@ == other@
    }
}

impl From<CharacterName> for String {
    fn from(name: CharacterName) -> (r: String)
        ensures
            r@ == name@,
    {
        name.0
    }
}

impl vstd::std_specs::convert::FromSpecImpl<CharacterName> for String {
    open spec fn obeys_from_spec() -> bool {
        false
    }

    open spec fn from_spec(name: CharacterName) -> Self {
        arbitrary()
    }
}

/// Free-form text describing a character's conversational persona; it is
/// injected verbatim into generation requests. Immutable; value equality.
#[derive(Debug)]
pub struct Personality(String);

impl View for Personality {
    type V = Seq<char>;

    closed spec fn view(&self) -> Seq<char> {
        self.0@
    }
}

impl Personality {
    pub fn new(personality: &str) -> (r: Self)
        ensures
            r@ == personality@,
    {
        Self(personality.to_owned())
    }

    pub fn as_str(&self) -> (r: &str)
        ensures
            r@ == self@,
    {
        self.0.as_str()
    }
}

impl Clone for Personality {
    fn clone(&self) -> (r: Self)
        ensures
            r@ == self@,
    {
        Self(self.0.clone())
    }
}

impl PartialEq for Personality {
    fn eq(&self, other: &Self) -> (r: bool) {
        self.0 == other.0
    }
}

impl Eq for Personality {}

impl vstd::std_specs::cmp::PartialEqSpecImpl for Personality {
    open spec fn obeys_eq_spec() -> bool {
        true
    }

    open spec fn eq_spec(&self, other: &Self) -> bool {
        self@ == other@
    }
}

impl From<Personality> for String {
    fn from(personality: Personality) -> (r: String)
        ensures
            r@ == personality@,
    {
        personality.0
    }
}

impl vstd::std_specs::convert::FromSpecImpl<Personality> for String {
    open spec fn obeys_from_spec() -> bool {
        false
    }

    open spec fn from_spec(personality: Personality) -> Self {
        arbitrary()
    }
}

/// Aggregate of exactly one name and one personality. Equality is structural:
/// both fields equal, compared as values.
#[derive(Debug)]
pub struct Character {
    pub name: CharacterName,
    pub personality: Personality,
}

impl Character {
    pub fn new(name: &CharacterName, personality: &Personality) -> (r: Self)
        ensures
            r.name@ == name@,
            r.personality@ == personality@,
    {
        Self { name: name.clone(), personality: personality.clone() }
    }
}

impl Clone for Character {
    fn clone(&self) -> (r: Self)
        ensures
            r.name@ == self.name@,
            r.personality@ == self.personality@,
    {
        Self { name: self.name.clone(), personality: self.personality.clone() }
    }
}

impl PartialEq for Character {
    fn eq(&self, other: &Self) -> (r: bool) {
        self.name == other.name && self.personality == other.personality
    }
}

impl Eq for Character {}

impl vstd::std_specs::cmp::PartialEqSpecImpl for Character {
    open spec fn obeys_eq_spec() -> bool {
        true
    }

    open spec fn eq_spec(&self, other: &Self) -> bool {
        self.name@ == other.name@ && self.personality@ == other.personality@
    }
}

/// Law: a character always equals itself, and two characters are equal
/// exactly when both the name and the personality agree as values; changing
/// either field yields not-equal.
pub proof fn lemma_character_value_equality(a: Character, b: Character)
    ensures
        a.eq_spec(&a),
        a.eq_spec(&b) <==> (a.name@ == b.name@ && a.personality@ == b.personality@),
{
}

} // verus!
