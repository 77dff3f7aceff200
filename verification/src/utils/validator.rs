//! The patterns that a connection form has to match.

use crate::configurations::config::{ClientInfo, ClientsConfig};
use crate::model::entity::client::{field_value, find_field, ClientData};
use vstd::prelude::*;

verus! {

pub struct Validator;

/// Whether the regular expression `pattern` finds a match anywhere in `text`;
/// `None` where `pattern` is no regular expression that the `regex` crate
/// accepts.
pub uninterp spec fn regex_match(pattern: Seq<char>, text: Seq<char>) -> Option<bool>;

/// Compiles `pattern` with `regex::Regex::new` and asks `Regex::is_match` for
/// `text`. Both depend on nothing but their arguments, so the outcome has a
/// name: [`regex_match`]. A pattern that does not compile gives `None`.
#[verifier::external_body]
fn regex_is_match(pattern: &str, text: &str) -> (outcome: Option<bool>)
    ensures
        outcome == regex_match(pattern@, text@),
{
    match regex::Regex::new(pattern) {
        Ok(re) => Some(re.is_match(text)),
        Err(_) => None,
    }
}

/// An outcome of matching passes unless the pattern was good and found no
/// match: a pattern that is no regular expression rules nothing out.
pub open spec fn outcome_passes(outcome: Option<bool>) -> bool {
    outcome != Some(false)
}

/// Whether `text` passes `pattern`, where one is set.
pub open spec fn text_passes(pattern: Option<String>, text: Seq<char>) -> bool {
    match pattern {
        Some(p) => outcome_passes(regex_match(p@, text)),
        None => true,
    }
}

/// Whether `given` holds the field that `required` names, with a value that
/// passes the pattern beside the name.
pub open spec fn field_passes(required: (String, String), given: Seq<(String, String)>) -> bool {
    match field_value(given, required.0@) {
        Some(value) => outcome_passes(regex_match(required.1@, value)),
        None => false,
    }
}

/// Whether `data` passes every pattern of `infos`.
pub open spec fn entry_passes(infos: ClientInfo, data: ClientData) -> bool {
    &&& text_passes(infos.name_validated, data.full_name@)
    &&& text_passes(infos.email_validated, data.email@)
    &&& text_passes(infos.phone_validated, data.phone@)
    &&& forall|i: int| 0 <= i < infos.fields@.len() ==> field_passes(infos.fields@[i], data.fields@)
}

impl Validator {
    /// Whether `data` passes the patterns of `config`; it does where `config`
    /// sets none.
    pub open spec fn client_is_valid(config: ClientsConfig, data: ClientData) -> bool {
        match config.info {
            Some(infos) => entry_passes(infos, data),
            None => true,
        }
    }

    /// Whether an outcome of matching lets the text pass.
    pub fn passes(outcome: Option<bool>) -> (b: bool)
        ensures
            b == outcome_passes(outcome),
    {
        match outcome {
            Some(found) => found,
            None => true,
        }
    }

    /// Whether `text` passes `pattern`, where one is set.
    pub fn validate_text(pattern: &Option<String>, text: &str) -> (b: bool)
        ensures
            b == text_passes(*pattern, text@),
    {
        match pattern {
            Some(p) => Self::passes(regex_is_match(p.as_str(), text)),
            None => true,
        }
    }

    /// Whether the entry `data` passes the patterns that `config` sets for
    /// the name, the address, the phone number and each further field, which
    /// must be present.
    pub fn validate_client(config: &ClientsConfig, data: &ClientData) -> (valid: bool)
        ensures
            valid == Self::client_is_valid(*config, *data),
    {
        if let Some(infos) = &config.info {
            if !Self::validate_text(&infos.name_validated, data.full_name.as_str()) {
                return false;
            }
            if !Self::validate_text(&infos.email_validated, data.email.as_str()) {
                return false;
            }
            if !Self::validate_text(&infos.phone_validated, data.phone.as_str()) {
                return false;
            }
            let mut i: usize = 0;
            while i < infos.fields.len()
                invariant
                    i <= infos.fields.len(),
                    config.info == Some(*infos),
                    text_passes(infos.name_validated, data.full_name@),
                    text_passes(infos.email_validated, data.email@),
                    text_passes(infos.phone_validated, data.phone@),
                    forall|j: int| 0 <= j < i ==> field_passes(infos.fields@[j], data.fields@),
                decreases infos.fields.len() - i,
            {
                match find_field(&data.fields, infos.fields[i].0.as_str()) {
                    Some(value) => {
                        let outcome = regex_is_match(infos.fields[i].1.as_str(), value.as_str());
                        if !Self::passes(outcome) {
                            assert(!field_passes(infos.fields@[i as int], data.fields@));
                            return false;
                        }
                    },
                    None => {
                        assert(!field_passes(infos.fields@[i as int], data.fields@));
                        return false;
                    },
                }
                i += 1;
            }
        }
        true
    }
}

} // verus!
