//! The operations of an update script.

use vstd::prelude::*;
use crate::line::{line_views, Line, LineView};
use crate::text::same_text;

verus! {

/// What an operation does with the lines of the old cache.
#[derive(Clone, Copy, Debug, PartialEq, Eq, Structural)]
pub enum OperationType {
    /// Keep the next lines.
    Copy_,
    /// Drop the next lines.
    Skip,
    /// Mark lines as unknown.
    Invalidate,
    /// Keep the text of the next lines and replace their cursors and styles.
    Update,
    /// Add new lines.
    Insert,
}

impl OperationType {
    /// The operation that the back-end calls `name`, if it calls one so.
    pub open spec fn named(name: Seq<char>) -> Option<OperationType> {
        if name == "copy"@ {
            Some(OperationType::Copy_)
        } else if name == "skip"@ {
            Some(OperationType::Skip)
        } else if name == "invalidate"@ {
            Some(OperationType::Invalidate)
        } else if name == "update"@ {
            Some(OperationType::Update)
        } else if name == "ins"@ {
            Some(OperationType::Insert)
        } else {
            None
        }
    }

    /// The operation that the back-end calls `name`, if it calls one so.
    pub fn from_name(name: &str) -> (operation_type: Option<OperationType>)
        ensures
            operation_type == Self::named(name@),
    {
        if same_text(name, "copy") {
            Some(OperationType::Copy_)
        } else if same_text(name, "skip") {
            Some(OperationType::Skip)
        } else if same_text(name, "invalidate") {
            Some(OperationType::Invalidate)
        } else if same_text(name, "update") {
            Some(OperationType::Update)
        } else if same_text(name, "ins") {
            Some(OperationType::Insert)
        } else {
            None
        }
    }
}

/// One instruction of an update script: what to do, to how many lines, and
/// the lines that the instruction brings with it.
#[derive(Debug, PartialEq, Eq)]
pub struct Operation {
    pub operation_type: OperationType,
    pub nb_lines: u64,
    pub lines: Vec<Line>,
}

/// What an `Operation` holds.
pub struct OperationView {
    pub operation_type: OperationType,
    pub nb_lines: nat,
    pub lines: Seq<LineView>,
}

impl View for Operation {
    type V = OperationView;

    open spec fn view(&self) -> OperationView {
        OperationView {
            operation_type: self.operation_type,
            nb_lines: self.nb_lines as nat,
            lines: line_views(self.lines@),
        }
    }
}

/// The views of `operations`, in order.
pub open spec fn operation_views(operations: Seq<Operation>) -> Seq<OperationView> {
    operations.map_values(|operation: Operation| operation@)
}

/// An update of one document: the operations that turn the old cache into the
/// new one, in the order in which they apply.
#[derive(Debug, PartialEq, Eq)]
pub struct Update {
    pub rev: Option<u64>,
    pub operations: Vec<Operation>,
    pub pristine: bool,
}

} // verus!
