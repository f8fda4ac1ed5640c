//! The steps of the workflow, in the order in which they are taken.

use crate::identifier::PatternKind;
use crate::json::Decimal;
use crate::sample::TENTHS;
use vstd::prelude::*;

verus! {

/// Where a workflow stands: at one of its six calls, or at one of its two ends.
#[derive(Debug, Clone, Copy, PartialEq, Eq, Structural)]
pub enum Step {
    CleanupPrevious,
    CleanupEmpty,
    CreateDiagram,
    CreateEntityA,
    CreateEntityB,
    CreateEdge,
    Done,
    Failed,
}

impl Step {
    /// The place of a step in the order of the run.
    pub open spec fn rank(self) -> int {
        match self {
            Step::CleanupPrevious => 0,
            Step::CleanupEmpty => 1,
            Step::CreateDiagram => 2,
            Step::CreateEntityA => 3,
            Step::CreateEntityB => 4,
            Step::CreateEdge => 5,
            Step::Done => 6,
            Step::Failed => 7,
        }
    }

    /// A step whose failure the service is allowed.
    pub open spec fn spec_is_cleanup(self) -> bool {
        self is CleanupPrevious || self is CleanupEmpty
    }

    /// An end of the run.
    pub open spec fn spec_is_terminal(self) -> bool {
        self is Done || self is Failed
    }

    /// The step that follows a step that went well; the ends stay.
    pub open spec fn spec_next(self) -> Step {
        match self {
            Step::CleanupPrevious => Step::CleanupEmpty,
            Step::CleanupEmpty => Step::CreateDiagram,
            Step::CreateDiagram => Step::CreateEntityA,
            Step::CreateEntityA => Step::CreateEntityB,
            Step::CreateEntityB => Step::CreateEdge,
            Step::CreateEdge => Step::Done,
            Step::Done => Step::Done,
            Step::Failed => Step::Failed,
        }
    }

    /// The convention under which the result of a step carries the identifier
    /// that later steps need, for the steps that yield one.
    pub open spec fn spec_captures(self) -> Option<PatternKind> {
        match self {
            Step::CreateDiagram => Some(PatternKind::Diagram),
            Step::CreateEntityA => Some(PatternKind::Entity),
            Step::CreateEntityB => Some(PatternKind::Entity),
            _ => None,
        }
    }

    /// The name of a step.
    pub open spec fn spec_name(self) -> Seq<char> {
        match self {
            Step::CleanupPrevious => "CleanupPrevious"@,
            Step::CleanupEmpty => "CleanupEmpty"@,
            Step::CreateDiagram => "CreateDiagram"@,
            Step::CreateEntityA => "CreateEntityA"@,
            Step::CreateEntityB => "CreateEntityB"@,
            Step::CreateEdge => "CreateEdge"@,
            Step::Done => "Done"@,
            Step::Failed => "Failed"@,
        }
    }

    /// The tool that a step calls; the ends call none.
    pub open spec fn spec_tool_name(self) -> Option<Seq<char>> {
        match self {
            Step::CleanupPrevious => Some("delete_diagram"@),
            Step::CleanupEmpty => Some("delete_diagram"@),
            Step::CreateDiagram => Some("create_diagram"@),
            Step::CreateEntityA => Some("add_uml_class"@),
            Step::CreateEntityB => Some("add_uml_class"@),
            Step::CreateEdge => Some("create_edge"@),
            Step::Done => None,
            Step::Failed => None,
        }
    }

    /// The id under which a step sends its request: 0, 0.5, 1, 2, 3 and 4;
    /// the ends send none.
    pub open spec fn spec_request_id(self) -> Option<Decimal> {
        match self {
            Step::CleanupPrevious => Some(Decimal { mantissa: 0, exponent: 0 }),
            Step::CleanupEmpty => Some(Decimal { mantissa: 5, exponent: TENTHS }),
            Step::CreateDiagram => Some(Decimal { mantissa: 1, exponent: 0 }),
            Step::CreateEntityA => Some(Decimal { mantissa: 2, exponent: 0 }),
            Step::CreateEntityB => Some(Decimal { mantissa: 3, exponent: 0 }),
            Step::CreateEdge => Some(Decimal { mantissa: 4, exponent: 0 }),
            Step::Done => None,
            Step::Failed => None,
        }
    }

    /// Whether a failure of this step is allowed.
    #[verifier::when_used_as_spec(spec_is_cleanup)]
    pub fn is_cleanup(self) -> (cleanup: bool)
        ensures
            cleanup == self.spec_is_cleanup(),
    {
        match self {
            Step::CleanupPrevious => true,
            Step::CleanupEmpty => true,
            _ => false,
        }
    }

    /// Whether this is an end of the run.
    #[verifier::when_used_as_spec(spec_is_terminal)]
    pub fn is_terminal(self) -> (terminal: bool)
        ensures
            terminal == self.spec_is_terminal(),
    {
        match self {
            Step::Done => true,
            Step::Failed => true,
            _ => false,
        }
    }

    /// The step that follows this one when it went well.
    #[verifier::when_used_as_spec(spec_next)]
    pub fn next(self) -> (following: Step)
        ensures
            following == self.spec_next(),
    {
        match self {
            Step::CleanupPrevious => Step::CleanupEmpty,
            Step::CleanupEmpty => Step::CreateDiagram,
            Step::CreateDiagram => Step::CreateEntityA,
            Step::CreateEntityA => Step::CreateEntityB,
            Step::CreateEntityB => Step::CreateEdge,
            Step::CreateEdge => Step::Done,
            Step::Done => Step::Done,
            Step::Failed => Step::Failed,
        }
    }

    /// The convention under which this step's result carries an identifier.
    #[verifier::when_used_as_spec(spec_captures)]
    pub fn captures(self) -> (kind: Option<PatternKind>)
        ensures
            kind == self.spec_captures(),
    {
        match self {
            Step::CreateDiagram => Some(PatternKind::Diagram),
            Step::CreateEntityA => Some(PatternKind::Entity),
            Step::CreateEntityB => Some(PatternKind::Entity),
            _ => None,
        }
    }

    /// The name of this step.
    pub fn name(self) -> (name: &'static str)
        ensures
            name@ == self.spec_name(),
    {
        match self {
            Step::CleanupPrevious => "CleanupPrevious",
            Step::CleanupEmpty => "CleanupEmpty",
            Step::CreateDiagram => "CreateDiagram",
            Step::CreateEntityA => "CreateEntityA",
            Step::CreateEntityB => "CreateEntityB",
            Step::CreateEdge => "CreateEdge",
            Step::Done => "Done",
            Step::Failed => "Failed",
        }
    }

    /// The tool that this step calls.
    pub fn tool_name(self) -> (tool: Option<&'static str>)
        ensures
            match tool {
                Some(tool) => self.spec_tool_name() == Some(tool@),
                None => self.spec_tool_name() is None,
            },
    {
        match self {
            Step::CleanupPrevious => Some("delete_diagram"),
            Step::CleanupEmpty => Some("delete_diagram"),
            Step::CreateDiagram => Some("create_diagram"),
            Step::CreateEntityA => Some("add_uml_class"),
            Step::CreateEntityB => Some("add_uml_class"),
            Step::CreateEdge => Some("create_edge"),
            Step::Done => None,
            Step::Failed => None,
        }
    }

    /// The id under which this step sends its request.
    #[verifier::when_used_as_spec(spec_request_id)]
    pub fn request_id(self) -> (id: Option<Decimal>)
        ensures
            id == self.spec_request_id(),
    {
        match self {
            Step::CleanupPrevious => Some(Decimal { mantissa: 0, exponent: 0 }),
            Step::CleanupEmpty => Some(Decimal { mantissa: 5, exponent: TENTHS }),
            Step::CreateDiagram => Some(Decimal { mantissa: 1, exponent: 0 }),
            Step::CreateEntityA => Some(Decimal { mantissa: 2, exponent: 0 }),
            Step::CreateEntityB => Some(Decimal { mantissa: 3, exponent: 0 }),
            Step::CreateEdge => Some(Decimal { mantissa: 4, exponent: 0 }),
            Step::Done => None,
            Step::Failed => None,
        }
    }
}

} // verus!
