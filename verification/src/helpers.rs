//! Validation of identifiers, and the common shape of a response.

use vstd::prelude::*;
use crate::error::InvalidIdentifier;
use crate::identifier::{
    chars_of, contains_at_sign, has_at_sign, is_email, is_username, matches_email,
    matches_username,
};
use crate::response::{attribute, AttributeView, EventView, PayoutView, Response, ResponseView};

verus! {

/// What validating `s` as an email address gives.
pub open spec fn validate_email_spec(s: Seq<char>) -> Result<(), InvalidIdentifier> {
    if is_email(s) {
        Ok(())
    } else {
        Err(InvalidIdentifier::BadEmail)
    }
}

/// What validating `s` as a username gives.
pub open spec fn validate_username_spec(s: Seq<char>) -> Result<(), InvalidIdentifier> {
    if is_username(s) {
        Ok(())
    } else {
        Err(InvalidIdentifier::BadUsername)
    }
}

/// What validating `s` as an identifier gives: a string with an `@` is
/// judged as an email address, any other as a username.
pub open spec fn validate_identifier_spec(s: Seq<char>) -> Result<(), InvalidIdentifier> {
    if has_at_sign(s) {
        validate_email_spec(s)
    } else {
        validate_username_spec(s)
    }
}

/// Accepts `email` if it has the shape of an email address: a local part of
/// one or more of the characters `A-Z a-z 0-9 . _ % + -`, an `@`, one or more
/// of the characters `A-Z a-z 0-9 . -`, a dot, and two or more letters.
pub fn validate_email(email: &str) -> (outcome: Result<(), InvalidIdentifier>)
    ensures
        outcome == validate_email_spec(email@),
{
    let chars = chars_of(email);
    if matches_email(&chars) {
        Ok(())
    } else {
        Err(InvalidIdentifier::BadEmail)
    }
}

/// Accepts `username` if it is 3 to 32 letters and digits.
pub fn validate_username(username: &str) -> (outcome: Result<(), InvalidIdentifier>)
    ensures
        outcome == validate_username_spec(username@),
{
    let chars = chars_of(username);
    if matches_username(&chars) {
        Ok(())
    } else {
        Err(InvalidIdentifier::BadUsername)
    }
}

/// Accepts `identifier` if it is an email address or a username.  The string
/// is judged as it stands: no case is folded and no blank is trimmed.
pub fn validate_identifier(identifier: &str) -> (outcome: Result<(), InvalidIdentifier>)
    ensures
        outcome == validate_identifier_spec(identifier@),
{
    let chars = chars_of(identifier);
    if contains_at_sign(&chars) {
        validate_email(identifier)
    } else {
        validate_username(identifier)
    }
}

/// The attributes that stand for a list of keys and values.
pub open spec fn pairs_view(pairs: Seq<(&str, &str)>) -> Seq<AttributeView> {
    pairs.map_values(|p: (&str, &str)| attribute(p.0@, p.1@))
}

/// The log of an action: the attribute `action` first, then the given ones.
pub open spec fn action_log(action: Seq<char>, attributes: Seq<AttributeView>) -> Seq<
    AttributeView,
> {
    seq![attribute("action"@, action)] + attributes
}

/// The response that logs `action` and the given attributes, `action` first,
/// and asks for no payment.
pub fn create_response(action: &str, attributes: Vec<(&str, &str)>) -> (response: Response)
    ensures
        response@ == (ResponseView {
            messages: Seq::<PayoutView>::empty(),
            attributes: action_log(action@, pairs_view(attributes@)),
            events: Seq::<EventView>::empty(),
        }),
{
    let mut response = Response::new().add_attribute("action", action);
    let mut i: usize = 0;
    while i < attributes.len()
        invariant
            i <= attributes.len(),
            response@.messages == Seq::<PayoutView>::empty(),
            response@.events == Seq::<EventView>::empty(),
            response@.attributes == action_log(action@, pairs_view(attributes@).take(i as int)),
        decreases attributes.len() - i,
    {
        let (key, value) = attributes[i];
        response = response.add_attribute(key, value);
        i += 1;
    }
    assert(pairs_view(attributes@).take(i as int) =~= pairs_view(attributes@));
    response
}

} // verus!
