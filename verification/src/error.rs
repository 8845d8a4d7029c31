//! The ways the attribute can refuse its input.

use vstd::prelude::*;
use vstd::string::*;

verus! {

/// Why a function could not be given a timer.
#[derive(Debug, PartialEq, Eq)]
pub enum ProfileError {
    /// The attribute's argument is not well-formed attribute content. Holds
    /// the parser's message.
    ArgumentSyntax(String),
    /// The argument is well-formed but is not a single identifier.
    BadLevel,
    /// The argument is an identifier that names no severity tier. Holds the
    /// identifier.
    UnknownLevel(String),
    /// The annotated text is not a well-formed item. Holds the parser's
    /// message.
    ItemSyntax(String),
    /// The annotated item is well-formed but is not a function.
    NotAFunction,
}

/// What a [`ProfileError`] holds, as sequences of characters.
pub enum ProfileErrorView {
    ArgumentSyntax(Seq<char>),
    BadLevel,
    UnknownLevel(Seq<char>),
    ItemSyntax(Seq<char>),
    NotAFunction,
}

impl View for ProfileError {
    type V = ProfileErrorView;

    open spec fn view(&self) -> ProfileErrorView {
        match self {
            ProfileError::ArgumentSyntax(message) => ProfileErrorView::ArgumentSyntax(message@),
            ProfileError::BadLevel => ProfileErrorView::BadLevel,
            ProfileError::UnknownLevel(name) => ProfileErrorView::UnknownLevel(name@),
            ProfileError::ItemSyntax(message) => ProfileErrorView::ItemSyntax(message@),
            ProfileError::NotAFunction => ProfileErrorView::NotAFunction,
        }
    }
}

impl ProfileErrorView {
    /// The text shown to whoever wrote the attribute.
    pub open spec fn message(self) -> Seq<char> {
        match self {
            ProfileErrorView::ArgumentSyntax(message) => message,
            ProfileErrorView::BadLevel => "Unknown log level."@,
            ProfileErrorView::UnknownLevel(name) => "Unknown log level "@ + name,
            ProfileErrorView::ItemSyntax(message) => message,
            ProfileErrorView::NotAFunction => "#[profile] can only be used on a function."@,
        }
    }
}

impl ProfileError {
    /// Tells whether the parser refused the input, as opposed to the
    /// attribute refusing what the parser read.
    pub fn is_syntax(&self) -> (syntax: bool)
        ensures
            syntax == (self@ is ArgumentSyntax || self@ is ItemSyntax),
    {
        match self {
            ProfileError::ArgumentSyntax(_) => true,
            ProfileError::ItemSyntax(_) => true,
            _ => false,
        }
    }

    /// The text shown to whoever wrote the attribute.
    pub fn message(&self) -> (message: String)
        ensures
            message@ == self@.message(),
    {
        match self {
            ProfileError::ArgumentSyntax(message) => message.clone(),
            ProfileError::BadLevel => String::from_str("Unknown log level."),
            ProfileError::UnknownLevel(name) => {
                let mut message = String::from_str("Unknown log level ");
                message.append(name.as_str());
                message
            },
            ProfileError::ItemSyntax(message) => message.clone(),
            ProfileError::NotAFunction => String::from_str(
                "#[profile] can only be used on a function.",
            ),
        }
    }
}

} // verus!
