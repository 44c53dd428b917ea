//! Typed answers to prompts, and template fields that resolve to a declared type.
use vstd::prelude::*;
use crate::error::{Error, Fault};
use crate::prompt::{template_text, PromptCollection, PromptParser, PromptResponses};
use crate::globals::Global;
use crate::text::{
    bool_string, bool_text, decimal, i64_text, parse_bool, parse_bool_text, parse_signed,
    parse_signed_text, parse_unsigned, parse_unsigned_text, signed_decimal, u64_text,
};
use core::marker::PhantomData;

verus! {

/// An answer given to a prompt.
#[derive(Debug, PartialEq, Eq)]
pub enum Input {
    Integer(u64),
    SignedInteger(i64),
    String(String),
    Boolean(bool),
    Null,
}

pub ghost enum InputView {
    Integer(u64),
    SignedInteger(i64),
    String(Seq<char>),
    Boolean(bool),
    Null,
}

impl View for Input {
    type V = InputView;

    open spec fn view(&self) -> InputView {
        match self {
            Input::Integer(x) => InputView::Integer(*x),
            Input::SignedInteger(x) => InputView::SignedInteger(*x),
            Input::String(s) => InputView::String(s@),
            Input::Boolean(b) => InputView::Boolean(*b),
            Input::Null => InputView::Null,
        }
    }
}

/// The text that an answer stands for inside a template.
pub open spec fn input_text(i: InputView) -> Seq<char> {
    match i {
        InputView::Integer(x) => decimal(x as nat),
        InputView::SignedInteger(x) => signed_decimal(x as int),
        InputView::String(s) => s,
        InputView::Boolean(b) => bool_text(b),
        InputView::Null => "null"@,
    }
}

impl Clone for Input {
    fn clone(&self) -> (r: Self)
        ensures
            r@ == self@,
    {
        match self {
            Input::Integer(x) => Input::Integer(*x),
            Input::SignedInteger(x) => Input::SignedInteger(*x),
            Input::String(s) => Input::String(s.clone()),
            Input::Boolean(b) => Input::Boolean(*b),
            Input::Null => Input::Null,
        }
    }
}

impl Input {
    /// The answer as template text: decimal for numbers, `true`/`false`, the
    /// string itself, or `null`.
    pub fn to_string(&self) -> (r: String)
        ensures
            r@ == input_text(self@),
    {
        match self {
            Input::Integer(x) => u64_text(*x),
            Input::SignedInteger(x) => i64_text(*x),
            Input::String(s) => s.clone(),
            Input::Boolean(b) => bool_string(*b),
            Input::Null => String::from_str("null"),
        }
    }
}

/// One choice offered by a selection prompt.
#[derive(Debug, PartialEq, Eq)]
pub struct SelectOption {
    pub name: String,
    pub value: Input,
}

impl View for SelectOption {
    type V = (Seq<char>, InputView);

    open spec fn view(&self) -> (Seq<char>, InputView) {
        (self.name@, self.value@)
    }
}

impl Clone for SelectOption {
    fn clone(&self) -> (r: Self)
        ensures
            r@ == self@,
    {
        SelectOption { name: self.name.clone(), value: self.value.clone() }
    }
}

/// The kind of answer a prompt asks for.
#[derive(Debug, PartialEq, Eq)]
pub enum InputType {
    Integer,
    SignedInteger,
    Select(Vec<SelectOption>),
    Name,
    Path,
    Boolean,
}

pub ghost enum InputTypeView {
    Integer,
    SignedInteger,
    Select(Seq<(Seq<char>, InputView)>),
    Name,
    Path,
    Boolean,
}

impl View for InputType {
    type V = InputTypeView;

    open spec fn view(&self) -> InputTypeView {
        match self {
            InputType::Integer => InputTypeView::Integer,
            InputType::SignedInteger => InputTypeView::SignedInteger,
            InputType::Select(v) => InputTypeView::Select(v@.map_values(|o: SelectOption| o@)),
            InputType::Name => InputTypeView::Name,
            InputType::Path => InputTypeView::Path,
            InputType::Boolean => InputTypeView::Boolean,
        }
    }
}

impl Clone for InputType {
    fn clone(&self) -> (r: Self)
        ensures
            r@ == self@,
    {
        match self {
            InputType::Integer => InputType::Integer,
            InputType::SignedInteger => InputType::SignedInteger,
            InputType::Select(v) => {
                let mut out: Vec<SelectOption> = Vec::new();
                let mut i: usize = 0;
                while i < v.len()
                    invariant
                        i <= v@.len(),
                        out@.map_values(|o: SelectOption| o@) =~= v@.take(i as int).map_values(
                            |o: SelectOption| o@,
                        ),
                    decreases v.len() - i,
                {
                    let ghost before = out@;
                    let c = v[i].clone();
                    out.push(c);
                    assert(v@.take(i + 1) =~= v@.take(i as int).push(v@[i as int]));
                    assert(out@ =~= before.push(c));
                    assert(out@.map_values(|o: SelectOption| o@) =~= before.map_values(
                        |o: SelectOption| o@,
                    ).push(c@));
                    i = i + 1;
                }
                assert(v@.take(v@.len() as int) =~= v@);
                InputType::Select(out)
            },
            InputType::Name => InputType::Name,
            InputType::Path => InputType::Path,
            InputType::Boolean => InputType::Boolean,
        }
    }
}

/// A scalar type that a template field can resolve to.
pub trait TemplateValue: Sized + View {
    /// The value that `text` parses to, if any.
    spec fn parse_spec(text: Seq<char>) -> Option<Self::V>;

    fn parse_text(text: &str) -> (r: Option<Self>)
        ensures
            r matches Some(v) ==> Self::parse_spec(text@) == Some(v@),
            r is None ==> Self::parse_spec(text@) is None,
    ;
}

impl TemplateValue for u16 {
    open spec fn parse_spec(text: Seq<char>) -> Option<u16> {
        match parse_unsigned(text, 0xffff) {
            Some(v) => Some(v as u16),
            None => None,
        }
    }

    fn parse_text(text: &str) -> (r: Option<u16>) {
        match parse_unsigned_text(text, 0xffff) {
            Some(v) => Some(v as u16),
            None => None,
        }
    }
}

impl TemplateValue for u64 {
    open spec fn parse_spec(text: Seq<char>) -> Option<u64> {
        match parse_unsigned(text, 0xffff_ffff_ffff_ffff) {
            Some(v) => Some(v as u64),
            None => None,
        }
    }

    fn parse_text(text: &str) -> (r: Option<u64>) {
        parse_unsigned_text(text, 0xffff_ffff_ffff_ffff)
    }
}

impl TemplateValue for i64 {
    open spec fn parse_spec(text: Seq<char>) -> Option<i64> {
        match parse_signed(text) {
            Some(v) => Some(v as i64),
            None => None,
        }
    }

    fn parse_text(text: &str) -> (r: Option<i64>) {
        parse_signed_text(text)
    }
}

impl TemplateValue for bool {
    open spec fn parse_spec(text: Seq<char>) -> Option<bool> {
        parse_bool(text)
    }

    fn parse_text(text: &str) -> (r: Option<bool>) {
        parse_bool_text(text)
    }
}

impl TemplateValue for String {
    open spec fn parse_spec(text: Seq<char>) -> Option<Seq<char>> {
        Some(text)
    }

    fn parse_text(text: &str) -> (r: Option<String>) {
        Some(String::from_str(text))
    }
}

/// What a raw field resolves to: placeholders substituted from `responses`,
/// then the text parsed as `T`.
pub open spec fn resolve<T: TemplateValue>(
    raw: Seq<char>,
    field: Seq<char>,
    responses: Seq<crate::prompt::PromptResponse>,
) -> Result<T::V, Fault> {
    match template_text(raw, responses) {
        Err(key) => Err(Fault::UnresolvedPlaceholder(key)),
        Ok(text) => match T::parse_spec(text) {
            Some(v) => Ok(v),
            None => Err(Fault::TypeMismatch { field, text }),
        },
    }
}

/// A field written as template text that resolves to a value of type `T`.
#[derive(Debug, PartialEq, Eq)]
pub struct TemplatedInput<T> {
    pub input: String,
    pub marker: PhantomData<T>,
}

impl<T> TemplatedInput<T> {
    /// A field with the given raw text.
    pub fn new(input: &str) -> (r: Self)
        ensures
            r.input@ == input@,
    {
        TemplatedInput { input: String::from_str(input), marker: PhantomData }
    }
}

impl<T: TemplateValue> TemplatedInput<T> {
    /// Substitutes the placeholders of the raw text and parses the result as
    /// `T`; a failure to parse names `field` and the substituted text. The
    /// global variables are reserved for later use and do not take part.
    pub fn output(
        &self,
        field: &str,
        globals: &Global,
        prompts: &PromptCollection,
        responses: &PromptResponses,
    ) -> (r: Result<T, Error>)
        ensures
            match r {
                Ok(v) => resolve::<T>(self.input@, field@, responses.0@) == Ok::<T::V, Fault>(v@),
                Err(e) => resolve::<T>(self.input@, field@, responses.0@) == Err::<T::V, Fault>(e@),
            },
    {
        let parser = PromptParser(prompts.clone());
        match parser.template(self.input.clone(), responses.0.as_slice()) {
            Err(e) => Err(e),
            Ok(text) => match T::parse_text(text.as_str()) {
                Some(v) => Ok(v),
                None => Err(Error::TypeMismatch { field: String::from_str(field), text }),
            },
        }
    }
}

} // verus!
