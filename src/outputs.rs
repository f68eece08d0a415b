//! Logical mixer outputs: the record the mixer-configuration service lists,
//! the editable local state built from it, and the partial-update request
//! that persists that state.

use vstd::prelude::*;

verus! {

/// A logical output as the mixer-configuration service lists it.
#[derive(Clone, Debug)]
pub struct PmxOutput {
    pub id: u32,
    pub name: String,
    pub left_port_path: Option<String>,
    pub right_port_path: Option<String>,
}

/// The editable local state of one logical output.
#[derive(Clone, Debug)]
pub struct MixerOutput {
    pub pmx_output_id: u32,
    pub name: String,
    pub selected_left_in_port_path: Option<String>,
    pub selected_right_in_port_path: Option<String>,
    /// Whether the selection is known to be persisted by the service.
    pub saved: bool,
}

/// The request that stores both port selections of one output.
#[derive(Clone, Debug)]
pub struct UpdateOutputPortAssignmentsRequest {
    pub id: u32,
    pub left_port_path: Option<String>,
    pub right_port_path: Option<String>,
}

/// The local state of an output just loaded from the service: its persisted
/// selections, marked saved.
pub open spec fn loaded_state(o: PmxOutput) -> MixerOutput {
    MixerOutput {
        pmx_output_id: o.id,
        name: o.name,
        selected_left_in_port_path: o.left_port_path,
        selected_right_in_port_path: o.right_port_path,
        saved: true,
    }
}

/// The request that persists the current selections of `o`: both of them, so
/// that the field not being edited keeps its value on the service.
pub open spec fn request_for(o: MixerOutput) -> UpdateOutputPortAssignmentsRequest {
    UpdateOutputPortAssignmentsRequest {
        id: o.pmx_output_id,
        left_port_path: o.selected_left_in_port_path,
        right_port_path: o.selected_right_in_port_path,
    }
}

/// A copy of an optional port path.
pub(crate) fn copy_path(p: &Option<String>) -> (r: Option<String>)
    ensures
        r == *p,
{
    match p {
        Some(s) => Some(s.clone()),
        None => None,
    }
}

impl MixerOutput {
    /// The local state for an output loaded from the service.
    pub fn from(output: &PmxOutput) -> (r: Self)
        ensures
            r == loaded_state(*output),
    {
        MixerOutput {
            pmx_output_id: output.id,
            name: output.name.clone(),
            selected_left_in_port_path: copy_path(&output.left_port_path),
            selected_right_in_port_path: copy_path(&output.right_port_path),
            saved: true,
        }
    }

    /// A copy of this state, field for field.
    pub fn snapshot(&self) -> (r: Self)
        ensures
            r == *self,
    {
        MixerOutput {
            pmx_output_id: self.pmx_output_id,
            name: self.name.clone(),
            selected_left_in_port_path: copy_path(&self.selected_left_in_port_path),
            selected_right_in_port_path: copy_path(&self.selected_right_in_port_path),
            saved: self.saved,
        }
    }

    /// The request that persists both current selections of this output.
    pub fn commit_request(&self) -> (r: UpdateOutputPortAssignmentsRequest)
        ensures
            r == request_for(*self),
    {
        UpdateOutputPortAssignmentsRequest {
            id: self.pmx_output_id,
            left_port_path: copy_path(&self.selected_left_in_port_path),
            right_port_path: copy_path(&self.selected_right_in_port_path),
        }
    }
}

} // verus!
