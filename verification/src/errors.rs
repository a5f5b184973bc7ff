//! Error values, and the messages that describe them.

use crate::text::{decimal_digits, decimal_string};
use vstd::prelude::*;
use vstd::string::*;

verus! {

/// Coordinates could not be read from a list of words.
#[derive(Clone, Debug, PartialEq)]
pub enum CoordsError {
    FailedToParseFromVec(String),
}

impl CoordsError {
    pub open spec fn detail(&self) -> Seq<char> {
        match self {
            CoordsError::FailedToParseFromVec(m) => m@,
        }
    }

    /// The text that describes this error.
    pub fn message(&self) -> (r: String)
        ensures
            r@ == coords_error_text(self.detail()),
    {
        match self {
            CoordsError::FailedToParseFromVec(m) => String::from_str(
                "Failed to parse coords from &str vec: ",
            ).concat(m.as_str()),
        }
    }
}

pub open spec fn coords_error_text(detail: Seq<char>) -> Seq<char> {
    "Failed to parse coords from &str vec: "@ + detail
}

/// A color could not be read from a list of words.
#[derive(Clone, Debug, PartialEq)]
pub enum ColorError {
    FailedToParseFromVec(String),
}

impl ColorError {
    pub open spec fn detail(&self) -> Seq<char> {
        match self {
            ColorError::FailedToParseFromVec(m) => m@,
        }
    }

    /// The text that describes this error.
    pub fn message(&self) -> (r: String)
        ensures
            r@ == color_error_text(self.detail()),
    {
        match self {
            ColorError::FailedToParseFromVec(m) => String::from_str(
                "Failed to parse color from &str vec: ",
            ).concat(m.as_str()),
        }
    }
}

pub open spec fn color_error_text(detail: Seq<char>) -> Seq<char> {
    "Failed to parse color from &str vec: "@ + detail
}

/// A point could not be read from a list of words.
#[derive(Clone, Debug, PartialEq)]
pub enum PointError {
    FailedToParseFromVec(String),
}

impl PointError {
    pub open spec fn detail(&self) -> Seq<char> {
        match self {
            PointError::FailedToParseFromVec(m) => m@,
        }
    }

    /// The text that describes this error.
    pub fn message(&self) -> (r: String)
        ensures
            r@ == "Failed to parse point from &str vec: "@ + self.detail(),
    {
        match self {
            PointError::FailedToParseFromVec(m) => String::from_str(
                "Failed to parse point from &str vec: ",
            ).concat(m.as_str()),
        }
    }
}

/// A plane could not be defined by the given points.
#[derive(Clone, Debug, PartialEq)]
pub enum PlaneError {
    FailedToInitializePlane(String),
}

impl PlaneError {
    /// The text that describes this error.
    pub fn message(&self) -> (r: String)
        ensures
            self matches PlaneError::FailedToInitializePlane(m) && r@
                == "Failed to initialize plane: "@ + m@,
    {
        match self {
            PlaneError::FailedToInitializePlane(m) => String::from_str(
                "Failed to initialize plane: ",
            ).concat(m.as_str()),
        }
    }
}

/// A polygon could not be constructed.
#[derive(Clone, Debug, PartialEq)]
pub enum PolygonError {
    FailedToInitializePolygon(String),
}

impl PolygonError {
    /// The text that describes this error.
    pub fn message(&self) -> (r: String)
        ensures
            self matches PolygonError::FailedToInitializePolygon(m) && r@
                == "Failed to initialize polygon: "@ + m@,
    {
        match self {
            PolygonError::FailedToInitializePolygon(m) => String::from_str(
                "Failed to initialize polygon: ",
            ).concat(m.as_str()),
        }
    }
}

/// A triangle could not be constructed.
#[derive(Clone, Debug, PartialEq)]
pub enum TriangleError {
    FailedToInitializeTriangle(String),
}

impl TriangleError {
    /// The text that describes this error.
    pub fn message(&self) -> (r: String)
        ensures
            self matches TriangleError::FailedToInitializeTriangle(m) && r@
                == "Failed to initialize triangle: "@ + m@,
    {
        match self {
            TriangleError::FailedToInitializeTriangle(m) => String::from_str(
                "Failed to initialize triangle: ",
            ).concat(m.as_str()),
        }
    }
}

/// A scene could not be loaded: its file could not be opened, or a line of it
/// could not be parsed.
#[derive(Clone, Debug, PartialEq)]
pub enum ModelError {
    FailedToOpenInputFile(String),
    FailedToParseInputFile(usize, String),
}

pub enum ModelErrorView {
    FailedToOpenInputFile(Seq<char>),
    FailedToParseInputFile(nat, Seq<char>),
}

impl View for ModelError {
    type V = ModelErrorView;

    open spec fn view(&self) -> ModelErrorView {
        match self {
            ModelError::FailedToOpenInputFile(m) => ModelErrorView::FailedToOpenInputFile(m@),
            ModelError::FailedToParseInputFile(n, m) => ModelErrorView::FailedToParseInputFile(
                *n as nat,
                m@,
            ),
        }
    }
}

pub open spec fn model_error_text(e: ModelErrorView) -> Seq<char> {
    match e {
        ModelErrorView::FailedToOpenInputFile(m) => "Failed to open input file: "@ + m,
        ModelErrorView::FailedToParseInputFile(n, m) => "Failed to parse input file at line "@
            + decimal_digits(n) + ". Error: "@ + m,
    }
}

impl ModelError {
    /// The text that describes this error.
    pub fn message(&self) -> (r: String)
        ensures
            r@ == model_error_text(self@),
    {
        match self {
            ModelError::FailedToOpenInputFile(m) => String::from_str(
                "Failed to open input file: ",
            ).concat(m.as_str()),
            ModelError::FailedToParseInputFile(n, m) => {
                let digits = decimal_string(*n);
                String::from_str("Failed to parse input file at line ").concat(
                    digits.as_str(),
                ).concat(". Error: ").concat(m.as_str())
            },
        }
    }
}

/// Rendering failed.
#[derive(Clone, Debug, PartialEq)]
pub struct RenderError(pub String);

impl RenderError {
    /// The text that describes this error.
    pub fn message(&self) -> (r: String)
        ensures
            r@ == "failed to render model. Error: "@ + self.0@,
    {
        String::from_str("failed to render model. Error: ").concat(self.0.as_str())
    }
}

/// Rendered data could not be written out.
#[derive(Clone, Debug, PartialEq)]
pub struct WriteError(pub String);

impl WriteError {
    /// The text that describes this error.
    pub fn message(&self) -> (r: String)
        ensures
            r@ == "failed to write render data to file. Error: "@ + self.0@,
    {
        String::from_str("failed to write render data to file. Error: ").concat(self.0.as_str())
    }
}

} // verus!
