//! Classification of raw collision reports into typed contact facts.
//!
//! The physics engine reports each contact as a pair of sides and the
//! relative speed at the contact point. The classifier reduces those
//! reports, once per tick, to a deduplicated set of directional
//! [`Contact`] facts: ground hits, character-versus-body hits and
//! character-versus-character hits.

use vstd::prelude::*;
use crate::characters::CharacterType;

verus! {

/// How hard a contact was: `Heavy` when the relative speed at the contact
/// point exceeds the configured threshold.
#[derive(Debug, Clone, Copy, Hash, Eq, PartialEq, Structural)]
pub enum ContactMagnitude {
    Light,
    Heavy,
}

/// One side of a contact that belongs to a recorded body: its identifier,
/// and its kind when it is a character.
#[derive(Debug, Clone, Copy, Hash, Eq, PartialEq, Structural)]
pub struct ContactedBody {
    pub body_id: u128,
    pub character: Option<CharacterType>,
}

/// What the reporting side hit.
#[derive(Debug, Clone, Copy, Hash, Eq, PartialEq, Structural)]
pub enum ContactTarget {
    Ground,
    Alphanumeric { id: u128 },
    Character { id: u128, character_type: CharacterType },
}

/// A classified, directional contact fact: `body` is always the reporting
/// side.
#[derive(Debug, Clone, Copy, Hash, Eq, PartialEq, Structural)]
pub struct Contact {
    pub body: ContactedBody,
    pub magnitude: ContactMagnitude,
    pub target: ContactTarget,
}

impl Contact {
    /// A contact of a recorded body with the static boundary.
    pub fn with_ground(body: ContactedBody, magnitude: ContactMagnitude) -> (r: Contact)
        ensures
            r == (Contact { body, magnitude, target: ContactTarget::Ground }),
    {
        Contact { body, magnitude, target: ContactTarget::Ground }
    }

    /// A contact of a character with another character; the target side must
    /// be a character.
    pub fn between_characters(body: ContactedBody, target: ContactedBody, magnitude: ContactMagnitude) -> (r:
        Contact)
        requires
            target.character is Some,
        ensures
            r == (Contact {
                body,
                magnitude,
                target: ContactTarget::Character {
                    id: target.body_id,
                    character_type: target.character.unwrap(),
                },
            }),
    {
        Contact {
            body,
            magnitude,
            target: ContactTarget::Character {
                id: target.body_id,
                character_type: target.character.unwrap(),
            },
        }
    }

    /// A contact where the target side is a passive body.
    pub fn between_bodies(maybe_character_body: ContactedBody, target: ContactedBody, magnitude: ContactMagnitude) -> (r:
        Contact)
        ensures
            r == (Contact {
                body: maybe_character_body,
                magnitude,
                target: ContactTarget::Alphanumeric { id: target.body_id },
            }),
    {
        Contact {
            body: maybe_character_body,
            magnitude,
            target: ContactTarget::Alphanumeric { id: target.body_id },
        }
    }
}

/// The contact facts one raw report contributes, as the classification
/// rules say: nothing when neither side is recorded, a ground fact when one
/// side is recorded, one fact per direction when both sides are characters,
/// and a single character-to-body fact when exactly one side is.
pub open spec fn spec_classified(
    meta_a: Option<ContactedBody>,
    meta_b: Option<ContactedBody>,
    magnitude: ContactMagnitude,
) -> Set<Contact> {
    match (meta_a, meta_b) {
        (None, None) => Set::empty(),
        (Some(a), None) => Set::empty().insert(
            Contact { body: a, magnitude, target: ContactTarget::Ground },
        ),
        (None, Some(b)) => Set::empty().insert(
            Contact { body: b, magnitude, target: ContactTarget::Ground },
        ),
        (Some(a), Some(b)) => {
            if a.character is Some && b.character is Some {
                Set::empty().insert(
                    Contact {
                        body: a,
                        magnitude,
                        target: ContactTarget::Character {
                            id: b.body_id,
                            character_type: b.character.unwrap(),
                        },
                    },
                ).insert(
                    Contact {
                        body: b,
                        magnitude,
                        target: ContactTarget::Character {
                            id: a.body_id,
                            character_type: a.character.unwrap(),
                        },
                    },
                )
            } else if b.character is Some {
                Set::empty().insert(
                    Contact {
                        body: b,
                        magnitude,
                        target: ContactTarget::Alphanumeric { id: a.body_id },
                    },
                )
            } else {
                Set::empty().insert(
                    Contact {
                        body: a,
                        magnitude,
                        target: ContactTarget::Alphanumeric { id: b.body_id },
                    },
                )
            }
        },
    }
}

/// Accumulates the classified facts of one tick, deduplicated by value.
#[derive(Debug, Clone)]
pub struct ContactClassifier {
    /// Contact speed from which a contact counts as heavy, in thousandths
    /// of a world unit per second.
    pub heavy_collision_speed_milli: i64,
    pub contacts: Vec<Contact>,
}

/// No two entries of the sequence are equal.
pub open spec fn no_dups(s: Seq<Contact>) -> bool {
    forall|i: int, j: int| 0 <= i < j < s.len() ==> s[i] != s[j]
}

impl ContactClassifier {
    /// The accumulated facts hold no duplicates.
    pub open spec fn wf(self) -> bool {
        no_dups(self.contacts@)
    }

    /// The accumulated facts, as the set they stand for.
    pub open spec fn contact_set(self) -> Set<Contact> {
        self.contacts@.to_set()
    }

    pub fn new(heavy_collision_speed_milli: i64) -> (r: ContactClassifier)
        ensures
            r.wf(),
            r.heavy_collision_speed_milli == heavy_collision_speed_milli,
            r.contact_set() == Set::<Contact>::empty(),
    {
        let r = ContactClassifier { heavy_collision_speed_milli, contacts: Vec::new() };
        proof {
            assert(r.contact_set() =~= Set::<Contact>::empty());
        }
        r
    }

    /// Record one fact, collapsing duplicates: the set of facts afterwards
    /// is the set before with the fact added, whether or not it was already
    /// present.
    pub fn insert(&mut self, contact: Contact)
        requires
            old(self).wf(),
        ensures
            final(self).wf(),
            final(self).contact_set() == old(self).contact_set().insert(contact),
            final(self).heavy_collision_speed_milli == old(self).heavy_collision_speed_milli,
            final(self).contacts@.len() <= old(self).contacts@.len() + 1,
    {
        let mut i: usize = 0;
        let n: usize = self.contacts.len();
        while i < n
            invariant
                n == self.contacts@.len(),
                i <= n,
                forall|j: int| 0 <= j < i ==> self.contacts@[j] != contact,
                self.contacts@ == old(self).contacts@,
                self.heavy_collision_speed_milli == old(self).heavy_collision_speed_milli,
                old(self).wf(),
            decreases n - i,
        {
            if self.contacts[i] == contact {
                proof {
                    assert(self.wf());
                    assert(old(self).contact_set().contains(contact));
                    assert(self.contact_set() =~= old(self).contact_set().insert(contact));
                }
                return ;
            }
            i = i + 1;
        }
        self.contacts.push(contact);
        proof {
            assert(self.contacts@.drop_last() =~= old(self).contacts@);
            assert(self.contacts@.last() == contact);
            assert(self.contact_set() =~= old(self).contact_set().insert(contact)) by {
                assert forall|c: Contact| self.contact_set().contains(c) implies old(
                    self,
                ).contact_set().insert(contact).contains(c) by {
                    let k = choose|k: int| 0 <= k < self.contacts@.len() && self.contacts@[k] == c;
                    if k < self.contacts@.len() - 1 {
                        assert(old(self).contacts@[k] == c);
                    }
                }
                assert forall|c: Contact|
                    old(self).contact_set().insert(contact).contains(c) implies self.contact_set().contains(
                    c,
                ) by {
                    if c == contact {
                        assert(self.contacts@.last() == c);
                    } else {
                        let k = choose|k: int|
                            0 <= k < old(self).contacts@.len() && old(self).contacts@[k] == c;
                        assert(self.contacts@[k] == c);
                    }
                }
            }
        }
    }

    /// Classify one raw contact report and record its facts.
    pub fn report(
        &mut self,
        meta_a: Option<ContactedBody>,
        meta_b: Option<ContactedBody>,
        speed_milli: i64,
    )
        requires
            old(self).wf(),
        ensures
            final(self).wf(),
            final(self).heavy_collision_speed_milli == old(self).heavy_collision_speed_milli,
            final(self).contact_set() == old(self).contact_set().union(
                spec_classified(
                    meta_a,
                    meta_b,
                    if speed_milli > old(self).heavy_collision_speed_milli {
                        ContactMagnitude::Heavy
                    } else {
                        ContactMagnitude::Light
                    },
                ),
            ),
    {
        let magnitude = if speed_milli > self.heavy_collision_speed_milli {
            ContactMagnitude::Heavy
        } else {
            ContactMagnitude::Light
        };
        let ghost goal = old(self).contact_set().union(spec_classified(meta_a, meta_b, magnitude));
        match (meta_a, meta_b) {
            (None, None) => {
                proof {
                    assert(self.contact_set() =~= goal);
                }
            },
            (Some(a), None) => {
                self.insert(Contact::with_ground(a, magnitude));
                proof {
                    assert(self.contact_set() =~= goal);
                }
            },
            (None, Some(b)) => {
                self.insert(Contact::with_ground(b, magnitude));
                proof {
                    assert(self.contact_set() =~= goal);
                }
            },
            (Some(a), Some(b)) => {
                if a.character.is_some() && b.character.is_some() {
                    // collision between two characters: one fact per direction
                    self.insert(Contact::between_characters(a, b, magnitude));
                    self.insert(Contact::between_characters(b, a, magnitude));
                } else if b.character.is_some() {
                    // prefer the character body as the reporting side
                    self.insert(Contact::between_bodies(b, a, magnitude));
                } else {
                    self.insert(Contact::between_bodies(a, b, magnitude));
                }
                proof {
                    assert(self.contact_set() =~= goal);
                }
            },
        }
    }

    /// Hand out every fact of the tick and clear the accumulator.
    pub fn drain(&mut self) -> (r: Vec<Contact>)
        requires
            old(self).wf(),
        ensures
            final(self).wf(),
            final(self).heavy_collision_speed_milli == old(self).heavy_collision_speed_milli,
            r@ == old(self).contacts@,
            r@.to_set() == old(self).contact_set(),
            final(self).contact_set() == Set::<Contact>::empty(),
            forall|i: int, j: int| 0 <= i < j < r@.len() ==> r@[i] != r@[j],
    {
        let mut out: Vec<Contact> = Vec::new();
        core::mem::swap(&mut out, &mut self.contacts);
        proof {
            assert(self.contact_set() =~= Set::<Contact>::empty());
        }
        out
    }
}

} // verus!
