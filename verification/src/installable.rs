//! What Nix is asked to build or to load.

use crate::os_text::OsText;
use crate::text::copy_texts;
use vstd::prelude::*;

verus! {

/// Something that Nix can build or load, with the attribute path in it.
#[derive(Debug, PartialEq, Eq)]
pub enum Installable {
    Flake { reference: String, attribute: Vec<String> },
    File { path: OsText, attribute: Vec<String> },
    Expression { expression: String, attribute: Vec<String> },
    Store { path: OsText },
}

/// The mathematical value of an [`Installable`].
#[verifier::ext_equal]
pub enum InstallableModel {
    Flake { reference: Seq<char>, attribute: Seq<Seq<char>> },
    File { path: Seq<u8>, attribute: Seq<Seq<char>> },
    Expression { expression: Seq<char>, attribute: Seq<Seq<char>> },
    Store { path: Seq<u8> },
}

impl View for Installable {
    type V = InstallableModel;

    open spec fn view(&self) -> InstallableModel {
        match *self {
            Installable::Flake { reference, attribute } => InstallableModel::Flake {
                reference: reference@,
                attribute: attribute.deep_view(),
            },
            Installable::File { path, attribute } => InstallableModel::File {
                path: path@,
                attribute: attribute.deep_view(),
            },
            Installable::Expression { expression, attribute } => InstallableModel::Expression {
                expression: expression@,
                attribute: attribute.deep_view(),
            },
            Installable::Store { path } => InstallableModel::Store { path: path@ },
        }
    }
}

impl DeepView for Installable {
    type V = InstallableModel;

    open spec fn deep_view(&self) -> InstallableModel {
        self@
    }
}

impl Clone for Installable {
    fn clone(&self) -> (result: Self)
        ensures
            result@ == self@,
    {
        match self {
            Installable::Flake { reference, attribute } => Installable::Flake {
                reference: reference.clone(),
                attribute: copy_texts(attribute),
            },
            Installable::File { path, attribute } => Installable::File {
                path: path.clone(),
                attribute: copy_texts(attribute),
            },
            Installable::Expression { expression, attribute } => Installable::Expression {
                expression: expression.clone(),
                attribute: copy_texts(attribute),
            },
            Installable::Store { path } => Installable::Store { path: path.clone() },
        }
    }
}

/// A place where Nix finds attributes.
#[derive(Debug, PartialEq, Eq)]
pub enum Source {
    Flake { reference: String },
    File { path: OsText },
    Expression { expression: String },
}

/// The mathematical value of a [`Source`].
#[verifier::ext_equal]
pub enum SourceModel {
    Flake { reference: Seq<char> },
    File { path: Seq<u8> },
    Expression { expression: Seq<char> },
}

impl View for Source {
    type V = SourceModel;

    open spec fn view(&self) -> SourceModel {
        match *self {
            Source::Flake { reference } => SourceModel::Flake { reference: reference@ },
            Source::File { path } => SourceModel::File { path: path@ },
            Source::Expression { expression } => SourceModel::Expression {
                expression: expression@,
            },
        }
    }
}

impl SourceModel {
    /// The attribute at the end of `path`, in this place.
    pub open spec fn at(self, path: Seq<Seq<char>>) -> InstallableModel {
        match self {
            SourceModel::Flake { reference } => InstallableModel::Flake {
                reference,
                attribute: path,
            },
            SourceModel::File { path: file } => InstallableModel::File {
                path: file,
                attribute: path,
            },
            SourceModel::Expression { expression } => InstallableModel::Expression {
                expression,
                attribute: path,
            },
        }
    }
}

impl InstallableModel {
    /// The place and the attribute path in it; a store path has neither.
    pub open spec fn parts(self) -> Option<(SourceModel, Seq<Seq<char>>)> {
        match self {
            InstallableModel::Flake { reference, attribute } => Some(
                (SourceModel::Flake { reference }, attribute),
            ),
            InstallableModel::File { path, attribute } => Some(
                (SourceModel::File { path }, attribute),
            ),
            InstallableModel::Expression { expression, attribute } => Some(
                (SourceModel::Expression { expression }, attribute),
            ),
            InstallableModel::Store { .. } => None,
        }
    }
}

impl Source {
    /// The attribute at the end of `path`, in this place.
    pub fn at(self, path: Vec<String>) -> (result: Installable)
        ensures
            result@ == self@.at(path.deep_view()),
    {
        match self {
            Source::Flake { reference } => Installable::Flake { reference, attribute: path },
            Source::File { path: file } => Installable::File { path: file, attribute: path },
            Source::Expression { expression } => Installable::Expression {
                expression,
                attribute: path,
            },
        }
    }
}

} // verus!
