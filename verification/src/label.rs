//! The request: what to put on the label, how large the page is, and where
//! the result goes.

use crate::content::{LabelContent, LabelContentView};
use crate::error::{LabelError, LabelErrorView};
use crate::units::Millimeters;
use vstd::prelude::*;

verus! {

/// Where the PDF goes once it is rendered.
#[derive(Debug, PartialEq, Eq)]
pub enum Destination {
    /// The operating system's default viewer for PDF files.
    ViewDefault,
    /// The print queue of this name. The name is not checked against the
    /// list of available printers.
    Printer(String),
}

/// The mathematical content of a `Destination`.
pub enum DestinationView {
    ViewDefault,
    Printer(Seq<char>),
}

impl View for Destination {
    type V = DestinationView;

    open spec fn view(&self) -> DestinationView {
        match *self {
            Destination::ViewDefault => DestinationView::ViewDefault,
            Destination::Printer(name) => DestinationView::Printer(name@),
        }
    }
}

/// One request. The page dimensions are in micrometres and must be positive.
#[derive(Debug, PartialEq, Eq)]
pub struct LabelSpec {
    pub content: LabelContent,
    pub width_um: i64,
    pub height_um: i64,
    pub destination: Destination,
}

/// The mathematical content of a `LabelSpec`.
pub struct LabelSpecView {
    pub content: LabelContentView,
    pub width_um: int,
    pub height_um: int,
    pub destination: DestinationView,
}

impl View for LabelSpec {
    type V = LabelSpecView;

    open spec fn view(&self) -> LabelSpecView {
        LabelSpecView {
            content: self.content@,
            width_um: self.width_um as int,
            height_um: self.height_um as int,
            destination: self.destination@,
        }
    }
}

impl LabelSpecView {
    /// Both page dimensions are greater than zero.
    pub open spec fn valid_dimensions(self) -> bool {
        self.width_um > 0 && self.height_um > 0
    }
}

impl Destination {
    /// The destination for an optional printer name: the named printer, or
    /// the default viewer when no name is given.
    pub fn from_printer_name(printer_name: Option<String>) -> (destination: Destination)
        ensures
            destination@ == match printer_name {
                Some(name) => DestinationView::Printer(name@),
                None => DestinationView::ViewDefault,
            },
    {
        match printer_name {
            Some(name) => Destination::Printer(name),
            None => Destination::ViewDefault,
        }
    }
}

impl LabelSpec {
    /// The page's width and height, or the validation error for a dimension
    /// that is zero or negative.
    pub fn dimensions(&self) -> (size: Result<(Millimeters, Millimeters), LabelError>)
        ensures
            self@.valid_dimensions() <==> size is Ok,
            size matches Ok((width, height)) ==> width.wf() && height.wf() && width.um()
                == self.width_um && height.um() == self.height_um,
            size matches Err(error) ==> error@ == LabelErrorView::InvalidDimensions,
    {
        match Millimeters::from_micrometers(self.width_um) {
            Some(width) => match Millimeters::from_micrometers(self.height_um) {
                Some(height) => Ok((width, height)),
                None => Err(LabelError::InvalidDimensions),
            },
            None => Err(LabelError::InvalidDimensions),
        }
    }
}

} // verus!
