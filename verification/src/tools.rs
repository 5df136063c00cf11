//! Tools, calls of tools and results of calls.
use crate::error::Error;
use serde_json::Value;
use vstd::prelude::*;

verus! {

/// Which tool a call or a result belongs to.
#[derive(Debug, Clone, PartialEq)]
pub struct ToolDetails {
    pub name: String,
    pub id: String,
}

pub struct ToolDetailsView {
    pub name: Seq<char>,
    pub id: Seq<char>,
}

impl View for ToolDetails {
    type V = ToolDetailsView;

    open spec fn view(&self) -> ToolDetailsView {
        ToolDetailsView { name: self.name@, id: self.id@ }
    }
}

/// A model's request to run a tool on an input.
#[derive(Debug, PartialEq)]
pub struct ToolCallInfo {
    pub tool: ToolDetails,
    pub input: Value,
}

pub struct ToolCallInfoView {
    pub tool: ToolDetailsView,
    pub input: Value,
}

impl View for ToolCallInfo {
    type V = ToolCallInfoView;

    open spec fn view(&self) -> ToolCallInfoView {
        ToolCallInfoView { tool: self.tool@, input: self.input }
    }
}

/// What came of a tool call.
#[derive(Debug, PartialEq)]
pub struct ToolResultInfo {
    pub tool: ToolDetails,
    pub output: Result<Value, Error>,
}

pub struct ToolResultInfoView {
    pub tool: ToolDetailsView,
    pub output: Result<Value, Error>,
}

impl View for ToolResultInfo {
    type V = ToolResultInfoView;

    open spec fn view(&self) -> ToolResultInfoView {
        ToolResultInfoView { tool: self.tool@, output: self.output }
    }
}

/// A tool that a model may call, with the JSON schema of its input.
#[derive(Debug, PartialEq)]
pub struct Tool {
    pub name: String,
    pub description: String,
    pub input_schema: Value,
}

pub struct ToolView {
    pub name: Seq<char>,
    pub description: Seq<char>,
    pub input_schema: Value,
}

impl View for Tool {
    type V = ToolView;

    open spec fn view(&self) -> ToolView {
        ToolView {
            name: self.name@,
            description: self.description@,
            input_schema: self.input_schema,
        }
    }
}

/// The tools on offer, in the order in which they are offered.
#[derive(Debug, PartialEq)]
pub struct ToolList {
    pub tools: Vec<Tool>,
}

impl View for ToolList {
    type V = Seq<ToolView>;

    open spec fn view(&self) -> Seq<ToolView> {
        crate::sequences::seq_view(self.tools@)
    }
}

} // verus!
