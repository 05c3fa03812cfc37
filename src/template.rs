//! The decision prompt: a text with three placeholders that each turn fills
//! with the node's text, its option labels and the user's words.
use vstd::prelude::*;
use crate::text::{begins_with, matches_at, occurs, occurs_in};

verus! {

/// The three placeholders a decision template must hold.
#[derive(Clone, Copy, Debug, PartialEq, Eq, Structural)]
pub enum Placeholder {
    DecisionPrompt,
    OptionList,
    UserResponse,
}

/// Why a text cannot serve as a decision template.
#[derive(Clone, Copy, Debug, PartialEq, Eq, Structural)]
pub enum TemplateError {
    /// The placeholder does not occur in the text (the first missing one, in
    /// the order decision prompt, option list, user response).
    MissingPlaceholder(Placeholder),
}

pub open spec fn decision_prompt_token() -> Seq<char> {
    "{decision_prompt}"@
}

pub open spec fn option_list_token() -> Seq<char> {
    "{option_list}"@
}

pub open spec fn user_response_token() -> Seq<char> {
    "{user_response}"@
}

/// The template read once from left to right, each placeholder replaced by
/// its value as it is met; the values themselves are never searched.
pub open spec fn render(
    template: Seq<char>,
    decision_prompt: Seq<char>,
    option_list: Seq<char>,
    user_response: Seq<char>,
) -> Seq<char>
    decreases template.len(),
{
    let n = template.len() as int;
    if template.len() == 0 {
        Seq::empty()
    } else if decision_prompt_token().len() > 0 && begins_with(template, decision_prompt_token()) {
        decision_prompt + render(
            template.subrange(decision_prompt_token().len() as int, n),
            decision_prompt,
            option_list,
            user_response,
        )
    } else if option_list_token().len() > 0 && begins_with(template, option_list_token()) {
        option_list + render(
            template.subrange(option_list_token().len() as int, n),
            decision_prompt,
            option_list,
            user_response,
        )
    } else if user_response_token().len() > 0 && begins_with(template, user_response_token()) {
        user_response + render(
            template.subrange(user_response_token().len() as int, n),
            decision_prompt,
            option_list,
            user_response,
        )
    } else {
        seq![template[0]] + render(
            template.subrange(1, n),
            decision_prompt,
            option_list,
            user_response,
        )
    }
}

/// Whether a text holds all three placeholders.
pub open spec fn has_all_placeholders(t: Seq<char>) -> bool {
    occurs_in(t, decision_prompt_token()) && occurs_in(t, option_list_token()) && occurs_in(
        t,
        user_response_token(),
    )
}

/// A decision template whose text holds every placeholder.
pub struct PromptDecisionTemplate(String);

impl View for PromptDecisionTemplate {
    type V = Seq<char>;

    closed spec fn view(&self) -> Seq<char> {
        self.0@
    }
}

impl PromptDecisionTemplate {
    pub closed spec fn wf(&self) -> bool {
        has_all_placeholders(self.0@)
    }

    /// Accepts `text` as a template when it holds all three placeholders.
    pub fn new(text: String) -> (r: Result<Self, TemplateError>)
        ensures
            match r {
                Ok(t) => t@ == text@ && t.wf() && has_all_placeholders(t@),
                Err(e) => !has_all_placeholders(text@) && e == TemplateError::MissingPlaceholder(
                    if !occurs_in(text@, decision_prompt_token()) {
                        Placeholder::DecisionPrompt
                    } else if !occurs_in(text@, option_list_token()) {
                        Placeholder::OptionList
                    } else {
                        Placeholder::UserResponse
                    },
                ),
            },
    {
        if !occurs(text.as_str(), "{decision_prompt}") {
            return Err(TemplateError::MissingPlaceholder(Placeholder::DecisionPrompt));
        }
        if !occurs(text.as_str(), "{option_list}") {
            return Err(TemplateError::MissingPlaceholder(Placeholder::OptionList));
        }
        if !occurs(text.as_str(), "{user_response}") {
            return Err(TemplateError::MissingPlaceholder(Placeholder::UserResponse));
        }
        Ok(PromptDecisionTemplate(text))
    }

    /// The template's text.
    pub fn as_str(&self) -> (r: &str)
        ensures
            r@ == self@,
    {
        self.0.as_str()
    }

    /// Fills the placeholders in one pass: the node's text, the serialized
    /// option labels and the user's (trimmed) response, each inserted as it is.
    pub fn format(&self, decision_prompt: &str, option_list: &str, user_response: &str) -> (r:
        String)
        ensures
            r@ == render(self@, decision_prompt@, option_list@, user_response@),
    {
        proof {
            reveal_strlit("{decision_prompt}");
            reveal_strlit("{option_list}");
            reveal_strlit("{user_response}");
        }
        let dp_token = "{decision_prompt}";
        let ol_token = "{option_list}";
        let ur_token = "{user_response}";
        let t = self.0.as_str();
        let n = t.unicode_len();
        let mut out = String::new();
        let mut i: usize = 0;
        assert(t@.subrange(0, n as int) =~= t@);
        while i < n
            invariant
                n == t@.len(),
                t@ == self@,
                i <= n,
                dp_token@ == decision_prompt_token(),
                ol_token@ == option_list_token(),
                ur_token@ == user_response_token(),
                dp_token@.len() > 0,
                ol_token@.len() > 0,
                ur_token@.len() > 0,
                out@ + render(t@.subrange(i as int, n as int), decision_prompt@, option_list@, user_response@)
                    == render(self@, decision_prompt@, option_list@, user_response@),
            decreases n - i,
        {
            let ghost rest = t@.subrange(i as int, n as int);
            let ghost before = out@;
            let step: usize;
            if matches_at(t, n, i, dp_token) {
                out.append(decision_prompt);
                step = dp_token.unicode_len();
            } else if matches_at(t, n, i, ol_token) {
                out.append(option_list);
                step = ol_token.unicode_len();
            } else if matches_at(t, n, i, ur_token) {
                out.append(user_response);
                step = ur_token.unicode_len();
            } else {
                out.append(t.substring_char(i, i + 1));
                step = 1;
                assert(t@.subrange(i as int, i + 1) =~= seq![rest[0]]);
            }
            assert(rest.subrange(step as int, rest.len() as int) =~= t@.subrange(
                (i + step) as int,
                n as int,
            ));
            assert(out@ + render(t@.subrange((i + step) as int, n as int), decision_prompt@, option_list@, user_response@)
                =~= before + render(rest, decision_prompt@, option_list@, user_response@));
            i = i + step;
        }
        assert(t@.subrange(n as int, n as int) =~= Seq::<char>::empty());
        out
    }
}

} // verus!
