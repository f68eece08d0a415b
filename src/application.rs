//! The assignment state model and the controller that drives it: it loads the
//! model from the two services, applies each port selection locally at once,
//! and hands back the request that persists it.

use vstd::prelude::*;

use crate::outputs::{copy_path, loaded_state, request_for, MixerOutput, PmxOutput, UpdateOutputPortAssignmentsRequest};
use crate::ports::{partition_ports, paths_with, ListPort, PortDirection};

verus! {

/// The addresses of the two services.
#[derive(Default, Clone, Debug)]
pub struct AppFlags {
    pub port_registry_url: String,
    pub pmx_registry_url: String,
}

/// An event for the controller.
#[derive(Debug)]
pub enum AppMessage {
    /// Both startup loads finished: the outputs and the port catalog.
    LoadInputsCompleted((Vec<PmxOutput>, Vec<ListPort>)),
    /// A port was chosen as the left source of an output.
    LeftPortSelected((u32, String)),
    /// A port was chosen as the right source of an output.
    RightPortSelected((u32, String)),
    /// The service stored the selections of an output.
    PortSaved(u32),
}

/// Outside work that the controller asks for.
#[derive(Clone, Debug)]
pub enum Command {
    /// Nothing to do.
    Idle,
    /// List the outputs of the mixer service and the ports of the port
    /// service, and report both with `LoadInputsCompleted`.
    LoadInputs { pmx_registry_url: String, port_registry_url: String },
    /// Send `request` to the mixer service and report success with `PortSaved`.
    Commit { registry_url: String, request: UpdateOutputPortAssignmentsRequest },
}

/// Why an operation of the model failed.
#[derive(Clone, Copy, Debug, PartialEq, Eq, Structural)]
pub enum AppError {
    /// No output has the given id.
    NotFound,
}

/// The controller's state: one editable state per logical output, the port
/// catalog, and the service addresses.
pub struct App {
    pub outputs: Vec<MixerOutput>,
    pub pipewire_out_port_paths: Vec<String>,
    pub pipewire_in_port_paths: Vec<String>,
    pub flags: AppFlags,
}

/// `i` is the first position in `s` of an output with id `id`.
pub open spec fn is_first_with_id(s: Seq<MixerOutput>, id: u32, i: int) -> bool {
    &&& 0 <= i < s.len()
    &&& s[i].pmx_output_id == id
    &&& forall|j: int| 0 <= j < i ==> s[j].pmx_output_id != id
}

/// The first position in `s` of an output with id `id`, or -1 if there is none.
pub open spec fn position_of(s: Seq<MixerOutput>, id: u32) -> int {
    if exists|i: int| is_first_with_id(s, id, i) {
        choose|i: int| is_first_with_id(s, id, i)
    } else {
        -1
    }
}

/// `o` with `path` as its left source, no longer saved.
pub open spec fn with_left(o: MixerOutput, path: String) -> MixerOutput {
    MixerOutput {
        pmx_output_id: o.pmx_output_id,
        name: o.name,
        selected_left_in_port_path: Some(path),
        selected_right_in_port_path: o.selected_right_in_port_path,
        saved: false,
    }
}

/// `o` with `path` as its right source, no longer saved.
pub open spec fn with_right(o: MixerOutput, path: String) -> MixerOutput {
    MixerOutput {
        pmx_output_id: o.pmx_output_id,
        name: o.name,
        selected_left_in_port_path: o.selected_left_in_port_path,
        selected_right_in_port_path: Some(path),
        saved: false,
    }
}

/// `o` marked saved.
pub open spec fn marked_saved(o: MixerOutput) -> MixerOutput {
    MixerOutput {
        pmx_output_id: o.pmx_output_id,
        name: o.name,
        selected_left_in_port_path: o.selected_left_in_port_path,
        selected_right_in_port_path: o.selected_right_in_port_path,
        saved: true,
    }
}

/// The outputs after choosing `path` as the left source of output `id`.
pub open spec fn left_selected(s: Seq<MixerOutput>, id: u32, path: String) -> Seq<MixerOutput> {
    let k = position_of(s, id);
    if k < 0 {
        s
    } else {
        s.update(k, with_left(s[k], path))
    }
}

/// The outputs after choosing `path` as the right source of output `id`.
pub open spec fn right_selected(s: Seq<MixerOutput>, id: u32, path: String) -> Seq<MixerOutput> {
    let k = position_of(s, id);
    if k < 0 {
        s
    } else {
        s.update(k, with_right(s[k], path))
    }
}

/// The outputs after the service confirmed that output `id` is stored.
pub open spec fn commit_acknowledged(s: Seq<MixerOutput>, id: u32) -> Seq<MixerOutput> {
    let k = position_of(s, id);
    if k < 0 {
        s
    } else {
        s.update(k, marked_saved(s[k]))
    }
}

/// `app` holds exactly what loading `outputs` and `ports` gives: one saved
/// state per output, in order, and the port paths split by direction.
pub open spec fn initialized(app: App, outputs: Seq<PmxOutput>, ports: Seq<ListPort>) -> bool {
    &&& app.outputs@ == outputs.map_values(|o: PmxOutput| loaded_state(o))
    &&& app.pipewire_in_port_paths@ == paths_with(ports, PortDirection::In)
    &&& app.pipewire_out_port_paths@ == paths_with(ports, PortDirection::Out)
}

/// `a` and `b` have the same port catalog and the same service addresses.
pub open spec fn same_catalog_and_flags(a: App, b: App) -> bool {
    &&& a.pipewire_in_port_paths@ == b.pipewire_in_port_paths@
    &&& a.pipewire_out_port_paths@ == b.pipewire_out_port_paths@
    &&& a.flags == b.flags
}

proof fn lemma_first_unique(s: Seq<MixerOutput>, id: u32, i: int)
    requires
        is_first_with_id(s, id, i),
    ensures
        position_of(s, id) == i,
{
    let c = choose|c: int| is_first_with_id(s, id, c);
    assert(is_first_with_id(s, id, c));
    if c < i {
        assert(s[c].pmx_output_id != id);
    } else if c > i {
        assert(s[i].pmx_output_id != id);
    }
}

proof fn lemma_first_exists(s: Seq<MixerOutput>, id: u32, i: int)
    requires
        0 <= i < s.len(),
        s[i].pmx_output_id == id,
    ensures
        exists|k: int| is_first_with_id(s, id, k),
    decreases i,
{
    if forall|j: int| 0 <= j < i ==> s[j].pmx_output_id != id {
        assert(is_first_with_id(s, id, i));
    } else {
        let j = choose|j: int| 0 <= j < i && s[j].pmx_output_id == id;
        lemma_first_exists(s, id, j);
    }
}

/// An output with id `id` is found exactly when some output has that id; the
/// position found holds such an output.
pub proof fn lemma_position_of(s: Seq<MixerOutput>, id: u32)
    ensures
        (position_of(s, id) >= 0) == (exists|i: int| 0 <= i < s.len() && s[i].pmx_output_id == id),
        position_of(s, id) >= 0 ==> position_of(s, id) < s.len() && s[position_of(s, id)].pmx_output_id == id,
        position_of(s, id) >= -1,
{
    if exists|i: int| 0 <= i < s.len() && s[i].pmx_output_id == id {
        let i = choose|i: int| 0 <= i < s.len() && s[i].pmx_output_id == id;
        lemma_first_exists(s, id, i);
    }
}

/// The position of the first output with id `id`, if there is one.
fn find_output(outputs: &Vec<MixerOutput>, id: u32) -> (r: Option<usize>)
    ensures
        match r {
            Some(k) => k as int == position_of(outputs@, id),
            None => position_of(outputs@, id) == -1,
        },
{
    let mut i: usize = 0;
    while i < outputs.len()
        invariant
            i <= outputs.len(),
            forall|j: int| 0 <= j < i ==> outputs@[j].pmx_output_id != id,
        decreases outputs.len() - i,
    {
        if outputs[i].pmx_output_id == id {
            proof {
                assert(is_first_with_id(outputs@, id, i as int));
                lemma_first_unique(outputs@, id, i as int);
            }
            return Some(i);
        }
        i += 1;
    }
    proof {
        lemma_position_of(outputs@, id);
    }
    None
}


/// Loading is idempotent: whatever the model held before, two loads of the same
/// outputs and ports leave the same output states and the same port catalog.
pub proof fn lemma_initialize_idempotent(
    first: App,
    second: App,
    outputs: Seq<PmxOutput>,
    ports: Seq<ListPort>,
)
    requires
        initialized(first, outputs, ports),
        initialized(second, outputs, ports),
    ensures
        first.outputs@ == second.outputs@,
        first.pipewire_in_port_paths@ == second.pipewire_in_port_paths@,
        first.pipewire_out_port_paths@ == second.pipewire_out_port_paths@,
{
}

/// Choosing a left source never changes a right source, of that output or of
/// any other, nor any other output at all; choosing a right source never
/// changes a left source likewise.
pub proof fn lemma_selection_fields_independent(s: Seq<MixerOutput>, id: u32, path: String)
    ensures
        left_selected(s, id, path).len() == s.len(),
        right_selected(s, id, path).len() == s.len(),
        forall|i: int|
            0 <= i < s.len() ==> {
                &&& (#[trigger] left_selected(s, id, path)[i]).selected_right_in_port_path
                    == s[i].selected_right_in_port_path
                &&& left_selected(s, id, path)[i].pmx_output_id == s[i].pmx_output_id
                &&& left_selected(s, id, path)[i].name == s[i].name
                &&& i != position_of(s, id) ==> left_selected(s, id, path)[i] == s[i]
            },
        forall|i: int|
            0 <= i < s.len() ==> {
                &&& (#[trigger] right_selected(s, id, path)[i]).selected_left_in_port_path
                    == s[i].selected_left_in_port_path
                &&& right_selected(s, id, path)[i].pmx_output_id == s[i].pmx_output_id
                &&& right_selected(s, id, path)[i].name == s[i].name
                &&& i != position_of(s, id) ==> right_selected(s, id, path)[i] == s[i]
            },
{
}

/// The commit made after choosing `path` as the left source of an existing
/// output carries its id, `path` on the left, and its right source as it was
/// before the edit; symmetrically for the right source.
pub proof fn lemma_commit_payload(s: Seq<MixerOutput>, id: u32, path: String)
    requires
        exists|i: int| 0 <= i < s.len() && s[i].pmx_output_id == id,
    ensures
        ({
            let k = position_of(s, id);
            &&& 0 <= k < s.len()
            &&& request_for(left_selected(s, id, path)[k]) == (UpdateOutputPortAssignmentsRequest {
                id,
                left_port_path: Some(path),
                right_port_path: s[k].selected_right_in_port_path,
            })
            &&& request_for(right_selected(s, id, path)[k]) == (UpdateOutputPortAssignmentsRequest {
                id,
                left_port_path: s[k].selected_left_in_port_path,
                right_port_path: Some(path),
            })
        }),
{
    lemma_position_of(s, id);
}

/// An id that no output has is not found, and selecting either source for it
/// or acknowledging its commit leaves every output as it was.
pub proof fn lemma_unknown_id(s: Seq<MixerOutput>, id: u32, path: String)
    requires
        forall|i: int| 0 <= i < s.len() ==> s[i].pmx_output_id != id,
    ensures
        position_of(s, id) < 0,
        left_selected(s, id, path) == s,
        right_selected(s, id, path) == s,
        commit_acknowledged(s, id) == s,
{
    lemma_position_of(s, id);
}

impl AppFlags {
    /// A copy of these addresses.
    pub fn snapshot(&self) -> (r: AppFlags)
        ensures
            r == *self,
    {
        AppFlags {
            port_registry_url: self.port_registry_url.clone(),
            pmx_registry_url: self.pmx_registry_url.clone(),
        }
    }
}

impl App {
    /// An empty model for the services at `flags`, and the command that loads it.
    pub fn new(flags: AppFlags) -> (r: (App, Command))
        ensures
            r.0.outputs@.len() == 0,
            r.0.pipewire_in_port_paths@.len() == 0,
            r.0.pipewire_out_port_paths@.len() == 0,
            r.0.flags == flags,
            r.1 == (Command::LoadInputs {
                pmx_registry_url: flags.pmx_registry_url,
                port_registry_url: flags.port_registry_url,
            }),
    {
        let command = Command::LoadInputs {
            pmx_registry_url: flags.pmx_registry_url.clone(),
            port_registry_url: flags.port_registry_url.clone(),
        };
        let app = App {
            outputs: Vec::new(),
            pipewire_out_port_paths: Vec::new(),
            pipewire_in_port_paths: Vec::new(),
            flags,
        };
        (app, command)
    }

    /// The window title.
    pub fn title(&self) -> (r: String)
        ensures
            r@ == "PMX-1 Output Setup"@,
    {
        String::from_str("PMX-1 Output Setup")
    }

    /// Replaces the whole model with what `outputs` and `ports` give: one saved
    /// state per output, holding its persisted selections, and the port paths
    /// split by direction.
    pub fn initialize(&mut self, outputs: &Vec<PmxOutput>, ports: &Vec<ListPort>)
        ensures
            initialized(*final(self), outputs@, ports@),
            final(self).flags == old(self).flags,
    {
        let catalog = partition_ports(ports);
        let mut states: Vec<MixerOutput> = Vec::new();
        let mut i: usize = 0;
        while i < outputs.len()
            invariant
                i <= outputs.len(),
                states@ == outputs@.take(i as int).map_values(|o: PmxOutput| loaded_state(o)),
            decreases outputs.len() - i,
        {
            states.push(MixerOutput::from(&outputs[i]));
            proof {
                assert(states@ =~= outputs@.take(i + 1).map_values(|o: PmxOutput| loaded_state(o)));
            }
            i += 1;
        }
        proof {
            assert(outputs@.take(outputs.len() as int) =~= outputs@);
        }
        self.outputs = states;
        self.pipewire_in_port_paths = catalog.in_port_paths;
        self.pipewire_out_port_paths = catalog.out_port_paths;
    }

    /// Chooses `path` as the left source of output `id` and marks it unsaved;
    /// returns a copy of its new state, from which the commit is made. Fails
    /// with `NotFound`, changing nothing, when no output has that id.
    pub fn select_left(&mut self, id: u32, path: String) -> (r: Result<MixerOutput, AppError>)
        ensures
            final(self).outputs@ == left_selected(old(self).outputs@, id, path),
            same_catalog_and_flags(*final(self), *old(self)),
            position_of(old(self).outputs@, id) < 0 ==> r == Err::<MixerOutput, AppError>(
                AppError::NotFound,
            ),
            position_of(old(self).outputs@, id) >= 0 ==> r == Ok::<MixerOutput, AppError>(
                final(self).outputs@[position_of(old(self).outputs@, id)],
            ),
    {
        match find_output(&self.outputs, id) {
            None => Err(AppError::NotFound),
            Some(k) => {
                let current = &self.outputs[k];
                let updated = MixerOutput {
                    pmx_output_id: current.pmx_output_id,
                    name: current.name.clone(),
                    selected_left_in_port_path: Some(path),
                    selected_right_in_port_path: copy_path(&current.selected_right_in_port_path),
                    saved: false,
                };
                let result = updated.snapshot();
                self.outputs.set(k, updated);
                Ok(result)
            },
        }
    }

    /// Chooses `path` as the right source of output `id` and marks it unsaved;
    /// returns a copy of its new state, from which the commit is made. Fails
    /// with `NotFound`, changing nothing, when no output has that id.
    pub fn select_right(&mut self, id: u32, path: String) -> (r: Result<MixerOutput, AppError>)
        ensures
            final(self).outputs@ == right_selected(old(self).outputs@, id, path),
            same_catalog_and_flags(*final(self), *old(self)),
            position_of(old(self).outputs@, id) < 0 ==> r == Err::<MixerOutput, AppError>(
                AppError::NotFound,
            ),
            position_of(old(self).outputs@, id) >= 0 ==> r == Ok::<MixerOutput, AppError>(
                final(self).outputs@[position_of(old(self).outputs@, id)],
            ),
    {
        match find_output(&self.outputs, id) {
            None => Err(AppError::NotFound),
            Some(k) => {
                let current = &self.outputs[k];
                let updated = MixerOutput {
                    pmx_output_id: current.pmx_output_id,
                    name: current.name.clone(),
                    selected_left_in_port_path: copy_path(&current.selected_left_in_port_path),
                    selected_right_in_port_path: Some(path),
                    saved: false,
                };
                let result = updated.snapshot();
                self.outputs.set(k, updated);
                Ok(result)
            },
        }
    }

    /// Records that the service stored the selections of output `id`: marks it
    /// saved. Fails with `NotFound`, changing nothing, when no output has that id.
    pub fn apply_commit_result(&mut self, id: u32) -> (r: Result<(), AppError>)
        ensures
            final(self).outputs@ == commit_acknowledged(old(self).outputs@, id),
            same_catalog_and_flags(*final(self), *old(self)),
            r is Ok <==> position_of(old(self).outputs@, id) >= 0,
            r is Err ==> r == Err::<(), AppError>(AppError::NotFound),
    {
        match find_output(&self.outputs, id) {
            None => Err(AppError::NotFound),
            Some(k) => {
                let updated = self.outputs[k].snapshot();
                let updated = MixerOutput { saved: true, ..updated };
                self.outputs.set(k, updated);
                Ok(())
            },
        }
    }

    /// Handles one event: a completed load replaces the model; a selection is
    /// applied at once and answered with the commit of both selections of that
    /// output to the mixer service; a confirmed commit marks the output saved.
    /// An event for an unknown output fails with `NotFound` and changes nothing.
    pub fn update(&mut self, message: AppMessage) -> (r: Result<Command, AppError>)
        ensures
            match message {
                AppMessage::LoadInputsCompleted((outputs, ports)) => {
                    &&& initialized(*final(self), outputs@, ports@)
                    &&& final(self).flags == old(self).flags
                    &&& r == Ok::<Command, AppError>(Command::Idle)
                },
                AppMessage::LeftPortSelected((id, path)) => {
                    let k = position_of(old(self).outputs@, id);
                    &&& final(self).outputs@ == left_selected(old(self).outputs@, id, path)
                    &&& same_catalog_and_flags(*final(self), *old(self))
                    &&& k < 0 ==> r == Err::<Command, AppError>(AppError::NotFound)
                    &&& k >= 0 ==> r == Ok::<Command, AppError>(
                        Command::Commit {
                            registry_url: old(self).flags.pmx_registry_url,
                            request: request_for(final(self).outputs@[k]),
                        },
                    )
                },
                AppMessage::RightPortSelected((id, path)) => {
                    let k = position_of(old(self).outputs@, id);
                    &&& final(self).outputs@ == right_selected(old(self).outputs@, id, path)
                    &&& same_catalog_and_flags(*final(self), *old(self))
                    &&& k < 0 ==> r == Err::<Command, AppError>(AppError::NotFound)
                    &&& k >= 0 ==> r == Ok::<Command, AppError>(
                        Command::Commit {
                            registry_url: old(self).flags.pmx_registry_url,
                            request: request_for(final(self).outputs@[k]),
                        },
                    )
                },
                AppMessage::PortSaved(id) => {
                    &&& final(self).outputs@ == commit_acknowledged(old(self).outputs@, id)
                    &&& same_catalog_and_flags(*final(self), *old(self))
                    &&& position_of(old(self).outputs@, id) < 0 ==> r == Err::<Command, AppError>(
                        AppError::NotFound,
                    )
                    &&& position_of(old(self).outputs@, id) >= 0 ==> r == Ok::<Command, AppError>(
                        Command::Idle,
                    )
                },
            },
    {
        match message {
            AppMessage::LoadInputsCompleted((outputs, ports)) => {
                self.initialize(&outputs, &ports);
                Ok(Command::Idle)
            },
            AppMessage::LeftPortSelected((id, path)) => {
                match self.select_left(id, path) {
                    Ok(state) => Ok(
                        Command::Commit {
                            registry_url: self.flags.pmx_registry_url.clone(),
                            request: state.commit_request(),
                        },
                    ),
                    Err(e) => Err(e),
                }
            },
            AppMessage::RightPortSelected((id, path)) => {
                match self.select_right(id, path) {
                    Ok(state) => Ok(
                        Command::Commit {
                            registry_url: self.flags.pmx_registry_url.clone(),
                            request: state.commit_request(),
                        },
                    ),
                    Err(e) => Err(e),
                }
            },
            AppMessage::PortSaved(id) => {
                match self.apply_commit_result(id) {
                    Ok(()) => Ok(Command::Idle),
                    Err(e) => Err(e),
                }
            },
        }
    }
}

} // verus!
