use vstd::prelude::*;

use crate::character::{Character, CharacterName};
use crate::errors::CoreError;
use crate::ports::CharacterRepository;

verus! {

/// The position of the first record carrying `name`, if any.
pub open spec fn spec_position_of_name(records: Seq<Character>, name: Seq<char>) -> Option<int>
    decreases records.len(),
{
    if records.len() == 0 {
        None
    } else if records[0].name@ == name {
        Some(0)
    } else {
        match spec_position_of_name(records.drop_first(), name) {
            Some(i) => Some(i + 1),
            None => None,
        }
    }
}

/// What the position of a name means: it is the first match, and a missing
/// position means no record carries the name.
pub proof fn lemma_position_of_name_props(records: Seq<Character>, name: Seq<char>)
    ensures
        (match spec_position_of_name(records, name) {
            Some(i) => 0 <= i < records.len() && records[i].name@ == name && (forall|j: int|
                0 <= j < i ==> records[j].name@ != name),
            None => forall|j: int| 0 <= j < records.len() ==> records[j].name@ != name,
        }),
    decreases records.len(),
{
    if records.len() > 0 && records[0].name@ != name {
        let rest = records.drop_first();
        lemma_position_of_name_props(rest, name);
        match spec_position_of_name(rest, name) {
            Some(i) => {
                assert(records[i + 1] == rest[i]);
                assert forall|j: int| 0 <= j < i + 1 implies records[j].name@ != name by {
                    if j > 0 {
                        assert(records[j] == rest[j - 1]);
                    }
                }
            },
            None => {
                assert forall|j: int| 0 <= j < records.len() implies records[j].name@ != name by {
                    if j > 0 {
                        assert(records[j] == rest[j - 1]);
                    }
                }
            },
        }
    }
}

/// `new_records` is `old_records` with the record at `i` replaced by one
/// carrying `after`'s fields, and nothing else touched.
pub open spec fn spec_replaced(
    old_records: Seq<Character>,
    new_records: Seq<Character>,
    i: int,
    after: Character,
) -> bool {
    &&& new_records.len() == old_records.len()
    &&& 0 <= i < new_records.len()
    &&& forall|k: int| 0 <= k < old_records.len() && k != i ==> new_records[k] == old_records[k]
    &&& new_records[i].name@ == after.name@
    &&& new_records[i].personality@ == after.personality@
}

/// A character store held in memory, backed by a uniqueness constraint on
/// names. Records are identified by creation order: the first created record
/// has id 1. Both writes of a record — identity and personality — live in
/// one aggregate, so every write is atomic by construction.
#[derive(Debug)]
pub struct InMemoryCharacterRepository {
    records: Vec<Character>,
}

impl InMemoryCharacterRepository {
    /// The stored records in creation order.
    pub closed spec fn characters(&self) -> Seq<Character> {
        self.records@
    }

    /// Stored names are pairwise distinct.
    #[verifier::type_invariant]
    pub closed spec fn wf(&self) -> bool {
        forall|i: int, j: int|
            0 <= i < j < self.records@.len() ==> self.records@[i].name@ != self.records@[j].name@
    }

    pub fn new() -> (r: Self)
        ensures
            r.characters().len() == 0,
    {
        Self { records: Vec::new() }
    }

    fn position_of_name(records: &Vec<Character>, name: &CharacterName) -> (r: Option<usize>)
        ensures
            (match spec_position_of_name(records@, name@) {
                Some(i) => r matches Some(u) && u as int == i,
                None => r is None,
            }),
    {
        proof {
            lemma_position_of_name_props(records@, name@);
        }
        let mut i: usize = 0;
        while i < records.len()
            invariant
                i <= records@.len(),
                forall|j: int| 0 <= j < i ==> records@[j].name@ != name@,
                (match spec_position_of_name(records@, name@) {
                    Some(p) => 0 <= p < records@.len() && records@[p].name@ == name@ && (forall|
                        j: int,
                    | 0 <= j < p ==> records@[j].name@ != name@),
                    None => forall|j: int| 0 <= j < records@.len() ==> records@[j].name@ != name@,
                }),
            decreases records@.len() - i,
        {
            if records[i].name == *name {
                return Some(i);
            }
            i += 1;
        }
        None
    }
}

impl CharacterRepository for InMemoryCharacterRepository {
    fn find_by_id(&self, id: u64) -> (r: Result<Character, CoreError>)
        ensures
            (if 1 <= id && id as int <= self.characters().len() {
                r matches Ok(c) && c.name@ == self.characters()[id - 1].name@
                    && c.personality@ == self.characters()[id - 1].personality@
            } else {
                r == Err::<Character, CoreError>(CoreError::NotFound)
            }),
    {
        if id >= 1 && id <= self.records.len() as u64 {
            let found = &self.records[(id - 1) as usize];
            Ok(found.clone())
        } else {
            Err(CoreError::NotFound)
        }
    }

    fn find_by_name(&self, name: &CharacterName) -> (r: Result<Character, CoreError>)
        ensures
            (match spec_position_of_name(self.characters(), name@) {
                Some(i) => r matches Ok(c) && c.name@ == self.characters()[i].name@
                    && c.personality@ == self.characters()[i].personality@,
                None => r == Err::<Character, CoreError>(CoreError::NotFound),
            }),
    {
        proof {
            lemma_position_of_name_props(self.records@, name@);
        }
        match Self::position_of_name(&self.records, name) {
            Some(i) => Ok(self.records[i].clone()),
            None => Err(CoreError::NotFound),
        }
    }

    fn create(&mut self, character: &Character) -> (r: Result<Character, CoreError>)
        ensures
            (match spec_position_of_name(old(self).characters(), character.name@) {
                Some(_) => r == Err::<Character, CoreError>(CoreError::Conflict)
                    && final(self).characters() == old(self).characters(),
                None => {
                    &&& r matches Ok(c) && c.name@ == character.name@ && c.personality@
                        == character.personality@
                    &&& final(self).characters().len() == old(self).characters().len() + 1
                    &&& forall|i: int|
                        0 <= i < old(self).characters().len() ==> final(self).characters()[i]
                            == old(self).characters()[i]
                    &&& final(self).characters().last().name@ == character.name@
                    &&& final(self).characters().last().personality@ == character.personality@
                },
            }),
    {
        proof {
            use_type_invariant(&*self);
            lemma_position_of_name_props(self.records@, character.name@);
        }
        match Self::position_of_name(&self.records, &character.name) {
            Some(_) => Err(CoreError::Conflict),
            None => {
                let stored = character.clone();
                let mut records: Vec<Character> = Vec::new();
                core::mem::swap(&mut self.records, &mut records);
                records.push(stored);
                core::mem::swap(&mut self.records, &mut records);
                Ok(character.clone())
            },
        }
    }

    fn update(&mut self, before: &Character, after: &Character) -> (r: Result<
        Character,
        CoreError,
    >)
        ensures
            (match spec_position_of_name(old(self).characters(), before.name@) {
                None => r == Err::<Character, CoreError>(CoreError::NotFound)
                    && final(self).characters() == old(self).characters(),
                Some(i) => (match spec_position_of_name(old(self).characters(), after.name@) {
                    Some(j) => if j != i {
                        r == Err::<Character, CoreError>(CoreError::Conflict)
                            && final(self).characters() == old(self).characters()
                    } else {
                        r matches Ok(c) && c.name@ == after.name@ && c.personality@
                            == after.personality@ && spec_replaced(
                            old(self).characters(),
                            final(self).characters(),
                            i,
                            *after,
                        )
                    },
                    None => r matches Ok(c) && c.name@ == after.name@ && c.personality@
                        == after.personality@ && spec_replaced(
                        old(self).characters(),
                        final(self).characters(),
                        i,
                        *after,
                    ),
                }),
            }),
    {
        proof {
            use_type_invariant(&*self);
            lemma_position_of_name_props(self.records@, before.name@);
            lemma_position_of_name_props(self.records@, after.name@);
        }
        match Self::position_of_name(&self.records, &before.name) {
            None => Err(CoreError::NotFound),
            Some(i) => {
                let collision = Self::position_of_name(&self.records, &after.name);
                let conflicting = match collision {
                    Some(j) => j != i,
                    None => false,
                };
                if conflicting {
                    Err(CoreError::Conflict)
                } else {
                    let mut records: Vec<Character> = Vec::new();
                    core::mem::swap(&mut self.records, &mut records);
                    records[i] = after.clone();
                    core::mem::swap(&mut self.records, &mut records);
                    Ok(after.clone())
                }
            },
        }
    }
}

} // verus!
