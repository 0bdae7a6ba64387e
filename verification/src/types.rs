//! The shapes that answers of the marketplace share.

use vstd::prelude::*;
use crate::text::str_eq;

verus! {

/// The success indicator of an answer as it came off the wire. Some
/// operations write it as a JSON boolean, others as the text of one.
#[derive(Debug)]
pub enum IsSuccess {
    StringValue(String),
    BoolValue(bool),
}

impl IsSuccess {
    /// What the indicator says: a boolean says what it is, and a text says
    /// yes exactly when it is `true`.
    pub open spec fn spec_is_true(&self) -> bool {
        match self {
            IsSuccess::StringValue(text) => text@ == "true"@,
            IsSuccess::BoolValue(value) => *value,
        }
    }

    /// What the indicator says.
    pub fn is_true(&self) -> (yes: bool)
        ensures
            yes == self.spec_is_true(),
    {
        match self {
            IsSuccess::StringValue(text) => str_eq(text.as_str(), "true"),
            IsSuccess::BoolValue(value) => *value,
        }
    }

    /// The indicator as text: a text as it is, a boolean as `true` or
    /// `false`.
    pub open spec fn spec_text(&self) -> Seq<char> {
        match self {
            IsSuccess::StringValue(text) => text@,
            IsSuccess::BoolValue(value) => boolean_text(*value),
        }
    }

    /// The indicator as text, for the answers that keep their success flag
    /// as text.
    pub fn into_text(self) -> (text: String)
        ensures
            text@ == self.spec_text(),
    {
        match self {
            IsSuccess::StringValue(text) => text,
            IsSuccess::BoolValue(value) => if value {
                "true".to_owned()
            } else {
                "false".to_owned()
            },
        }
    }
}

/// An indicator says yes exactly when its text is `true`: turning it into
/// text loses nothing of what it says.
pub proof fn lemma_success_text_agrees(indicator: IsSuccess)
    ensures
        indicator.spec_is_true() == (indicator.spec_text() == "true"@),
{
    reveal_strlit("true");
    reveal_strlit("false");
    assert("true"@.len() == 4);
    assert("false"@.len() == 5);
}

/// The text that stands for a boolean in a success indicator.
pub open spec fn boolean_text(value: bool) -> Seq<char> {
    if value {
        "true"@
    } else {
        "false"@
    }
}

/// The two ways of writing a success indicator say the same: the text of a
/// boolean reads as that boolean, and so does the boolean itself.
pub proof fn lemma_success_indicator_forms_agree(value: bool, as_text: IsSuccess, as_bool: IsSuccess)
    requires
        as_text matches IsSuccess::StringValue(text) && text@ == boolean_text(value),
        as_bool == IsSuccess::BoolValue(value),
    ensures
        as_text.spec_is_true() == value,
        as_bool.spec_is_true() == value,
{
    reveal_strlit("true");
    reveal_strlit("false");
    assert("true"@.len() == 4);
    assert("false"@.len() == 5);
}

/// The envelope that most answers of the marketplace come in. `B` is the
/// type of the body.
#[derive(Debug)]
pub struct NeweggApiResponse<B> {
    /// The success indicator as it came off the wire. Read it through
    /// [`NeweggApiResponse::get_is_success`].
    pub is_success: IsSuccess,
    pub operation_type: String,
    pub seller_id: Option<String>,
    pub response_body: B,
    pub memo: Option<String>,
}

impl<B> NeweggApiResponse<B> {
    /// Whether the marketplace reports success, however it wrote that.
    pub fn get_is_success(&self) -> (success: bool)
        ensures
            success == self.is_success.spec_is_true(),
    {
        self.is_success.is_true()
    }
}

/// An answer that comes wrapped in one more object.
#[derive(Debug)]
pub struct NeweggApiResponseWrapped<B> {
    pub newegg_api_response: NeweggApiResponse<B>,
}

impl<B> NeweggApiResponseWrapped<B> {
    /// The answer inside the wrapper.
    pub fn response(&self) -> (response: &NeweggApiResponse<B>)
        ensures
            *response == self.newegg_api_response,
    {
        &self.newegg_api_response
    }
}

/// A value that the marketplace writes by itself where there is one, and as
/// an array where there are several.
#[derive(Debug)]
pub enum MaybeList<T> {
    Single(T),
    List(Vec<T>),
}

} // verus!
