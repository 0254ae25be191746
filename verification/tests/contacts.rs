//! Contact classification and deduplication.

use keyboard_zoo::characters::CharacterType;
use keyboard_zoo::contact::{Contact, ContactClassifier, ContactMagnitude, ContactTarget, ContactedBody};

fn passive(id: u128) -> Option<ContactedBody> {
    Some(ContactedBody {
        body_id: id,
        character: None,
    })
}

fn actor(id: u128) -> Option<ContactedBody> {
    Some(ContactedBody {
        body_id: id,
        character: Some(CharacterType::PacMan),
    })
}

#[test]
fn duplicate_report_yields_one_fact() {
    let mut classifier = ContactClassifier::new(2_000);
    classifier.report(actor(1), None, 100);
    classifier.report(actor(1), None, 100);
    let facts = classifier.drain();
    assert_eq!(facts.len(), 1);
    assert_eq!(facts[0].target, ContactTarget::Ground);
    assert_eq!(facts[0].body.body_id, 1);
}

#[test]
fn drain_clears_the_accumulator() {
    let mut classifier = ContactClassifier::new(2_000);
    classifier.report(actor(1), None, 100);
    assert_eq!(classifier.drain().len(), 1);
    assert_eq!(classifier.drain().len(), 0);
}

#[test]
fn boundary_only_contact_is_discarded() {
    let mut classifier = ContactClassifier::new(2_000);
    classifier.report(None, None, 10_000);
    assert_eq!(classifier.drain().len(), 0);
}

#[test]
fn ground_contact_uses_the_recorded_side() {
    let mut classifier = ContactClassifier::new(2_000);
    classifier.report(None, passive(7), 100);
    let facts = classifier.drain();
    assert_eq!(facts.len(), 1);
    assert_eq!(facts[0].body.body_id, 7);
    assert_eq!(facts[0].target, ContactTarget::Ground);
    assert_eq!(facts[0].magnitude, ContactMagnitude::Light);
}

#[test]
fn two_characters_give_one_fact_per_direction() {
    let mut classifier = ContactClassifier::new(2_000);
    classifier.report(actor(1), actor(2), 100);
    let facts = classifier.drain();
    assert_eq!(facts.len(), 2);
    let mut seen_1_to_2 = false;
    let mut seen_2_to_1 = false;
    for f in &facts {
        match f.target {
            ContactTarget::Character { id, .. } => {
                if f.body.body_id == 1 && id == 2 {
                    seen_1_to_2 = true;
                }
                if f.body.body_id == 2 && id == 1 {
                    seen_2_to_1 = true;
                }
            }
            _ => panic!("unexpected target"),
        }
    }
    assert!(seen_1_to_2 && seen_2_to_1);
}

#[test]
fn character_side_is_preferred_as_subject() {
    let mut classifier = ContactClassifier::new(2_000);
    classifier.report(passive(9), actor(4), 100);
    let facts = classifier.drain();
    assert_eq!(facts.len(), 1);
    assert_eq!(facts[0].body.body_id, 4);
    assert_eq!(facts[0].target, ContactTarget::Alphanumeric { id: 9 });
}

#[test]
fn heavy_magnitude_needs_speed_above_threshold() {
    let mut classifier = ContactClassifier::new(2_000);
    classifier.report(passive(1), passive(2), 2_000);
    classifier.report(passive(3), passive(4), 2_001);
    let facts = classifier.drain();
    assert_eq!(facts.len(), 2);
    for f in &facts {
        if f.body.body_id == 1 {
            assert_eq!(f.magnitude, ContactMagnitude::Light);
        } else {
            assert_eq!(f.magnitude, ContactMagnitude::Heavy);
        }
    }
}

#[test]
fn contact_constructors_build_the_stated_facts() {
    let a = ContactedBody {
        body_id: 1,
        character: Some(CharacterType::PacMan),
    };
    let b = ContactedBody {
        body_id: 2,
        character: Some(CharacterType::PacMan),
    };
    let p = ContactedBody {
        body_id: 3,
        character: None,
    };

    let g = Contact::with_ground(a, ContactMagnitude::Light);
    assert_eq!(g.target, ContactTarget::Ground);
    assert_eq!(g.body, a);

    let cc = Contact::between_characters(a, b, ContactMagnitude::Heavy);
    assert_eq!(
        cc.target,
        ContactTarget::Character {
            id: 2,
            character_type: CharacterType::PacMan
        }
    );

    let cb = Contact::between_bodies(a, p, ContactMagnitude::Light);
    assert_eq!(cb.target, ContactTarget::Alphanumeric { id: 3 });
    assert_eq!(cb.body, a);
}
