//! The output registry: which display outputs exist, their geometry as it
//! arrives in two out-of-order event streams, and what changed since the
//! caller last refreshed.

use vstd::prelude::*;
use idmap::IdMap;
use wayland_client::protocol::wl_output::WlOutput;
use wayland_client::Proxy;

verus! {

/// Rotation and flip of an output, as the display server reports it.
#[derive(Clone, Copy, PartialEq, Eq, Structural, Debug)]
pub enum Transform {
    Normal,
    _90,
    _180,
    _270,
    Flipped,
    Flipped90,
    Flipped180,
    Flipped270,
}

/// The transform that the wire value `raw` stands for.
pub open spec fn transform_of(raw: u32) -> Transform {
    if raw == 1 {
        Transform::_90
    } else if raw == 2 {
        Transform::_180
    } else if raw == 3 {
        Transform::_270
    } else if raw == 4 {
        Transform::Flipped
    } else if raw == 5 {
        Transform::Flipped90
    } else if raw == 6 {
        Transform::Flipped180
    } else if raw == 7 {
        Transform::Flipped270
    } else {
        Transform::Normal
    }
}

/// Reads a transform off the wire. A value that names no transform counts as
/// `Normal`.
pub fn transform_from_wire(raw: u32) -> (transform: Transform)
    ensures
        transform == transform_of(raw),
{
    match raw {
        1 => Transform::_90,
        2 => Transform::_180,
        3 => Transform::_270,
        4 => Transform::Flipped,
        5 => Transform::Flipped90,
        6 => Transform::Flipped180,
        7 => Transform::Flipped270,
        _ => Transform::Normal,
    }
}

/// One axis of a logical rectangle in canonical form: a negative extent is
/// negated and the origin is moved by it. The arithmetic is that of the
/// 32-bit wire values and wraps.
pub open spec fn normalized_axis(pos: i32, extent: i32) -> (i32, i32) {
    if extent < 0 {
        (pos.wrapping_add(extent), 0i32.wrapping_sub(extent))
    } else {
        (pos, extent)
    }
}

fn normalize_axis(pos: i32, extent: i32) -> (axis: (i32, i32))
    ensures
        axis == normalized_axis(pos, extent),
{
    if extent < 0 {
        (pos.wrapping_add(extent), 0i32.wrapping_sub(extent))
    } else {
        (pos, extent)
    }
}

/// Where no 32-bit value overflows, the canonical form of an axis covers the
/// same interval with a non-negative extent.
pub proof fn normalized_axis_is_canonical(pos: i32, extent: i32)
    requires
        extent > i32::MIN,
        pos + extent >= i32::MIN,
    ensures
        normalized_axis(pos, extent).1 >= 0,
        extent < 0 ==> normalized_axis(pos, extent) == ((pos + extent) as i32, (-extent) as i32),
        extent < 0 ==> normalized_axis(pos, extent).0 + normalized_axis(pos, extent).1 == pos,
        extent >= 0 ==> normalized_axis(pos, extent) == (pos, extent),
{
}

/// The geometry that the display server announced for a finalized output
/// and that the next refresh applies, each part where it was announced.
pub struct Announced {
    pub logical_pos: Option<(i32, i32)>,
    pub logical_size: Option<(i32, i32)>,
    pub size: Option<(i32, i32)>,
    pub model: Option<String>,
    pub transform: Option<Transform>,
}

impl Announced {
    /// Nothing is announced.
    pub open spec fn nothing() -> Announced {
        Announced { logical_pos: None, logical_size: None, size: None, model: None, transform: None }
    }

    pub fn none() -> (announced: Announced)
        ensures
            announced == Announced::nothing(),
    {
        Announced { logical_pos: None, logical_size: None, size: None, model: None, transform: None }
    }

    /// A copy of what is announced.
    pub fn duplicate(&self) -> (copy: Announced)
        ensures
            copy == *self,
    {
        Announced {
            logical_pos: self.logical_pos,
            logical_size: self.logical_size,
            size: self.size,
            model: match &self.model {
                Some(model) => Some(model.clone()),
                None => None,
            },
            transform: self.transform,
        }
    }
}

/// One logical display device.
pub struct WlxOutput {
    pub id: u32,
    pub name: String,
    pub model: String,
    pub size: (i32, i32),
    pub logical_pos: (i32, i32),
    pub logical_size: (i32, i32),
    pub transform: Transform,
    /// The geometry changed after the output was finalized, or the output's
    /// global was removed.
    pub dirty: bool,
    /// The geometry that the next refresh applies.
    pub announced: Announced,
    /// A logical position has been observed.
    pub has_logical_pos: bool,
    /// A logical size has been observed.
    pub has_logical_size: bool,
    /// The output is finalized: both logical position and logical size have
    /// been observed, and the rectangle is in canonical form.
    pub done: bool,
    /// The stamp of the refresh pass that last observed the output's global.
    pub updated: u64,
}

impl WlxOutput {
    /// An output as the registry creates it when it first observes the global
    /// `id` in the pass stamped `now`.
    pub open spec fn fresh(id: u32, name: String, now: u64) -> WlxOutput {
        WlxOutput {
            id,
            name,
            model: name,
            size: (0, 0),
            logical_pos: (0, 0),
            logical_size: (0, 0),
            transform: Transform::Normal,
            dirty: false,
            announced: Announced::nothing(),
            has_logical_pos: false,
            has_logical_size: false,
            done: false,
            updated: now,
        }
    }

    /// The output with its logical rectangle in canonical form, finalized.
    pub open spec fn finalized(self) -> WlxOutput {
        let horizontal = normalized_axis(self.logical_pos.0, self.logical_size.0);
        let vertical = normalized_axis(self.logical_pos.1, self.logical_size.1);
        WlxOutput {
            logical_pos: (horizontal.0, vertical.0),
            logical_size: (horizontal.1, vertical.1),
            dirty: false,
            done: true,
            ..self
        }
    }

    /// The output marked as changed since it was finalized.
    pub open spec fn marked_dirty(self) -> WlxOutput {
        WlxOutput { dirty: true, ..self }
    }

    /// The output once both halves of its logical geometry are known.
    pub open spec fn settled(self) -> WlxOutput {
        if self.has_logical_pos && self.has_logical_size {
            self.finalized()
        } else {
            self
        }
    }

    /// The output after its name arrived.
    pub open spec fn after_name(self, name: String) -> WlxOutput {
        WlxOutput { name, ..self }
    }

    /// The output after a logical position arrived: a finalized output is
    /// marked dirty, keeps its geometry and holds the position as announced;
    /// another takes the position and is finalized if its logical size is
    /// known.
    pub open spec fn after_logical_position(self, x: i32, y: i32) -> WlxOutput {
        if self.done {
            WlxOutput {
                dirty: true,
                announced: Announced { logical_pos: Some((x, y)), ..self.announced },
                ..self
            }
        } else {
            (WlxOutput { logical_pos: (x, y), has_logical_pos: true, ..self }).settled()
        }
    }

    /// The output after a logical size arrived: a finalized output is marked
    /// dirty, keeps its geometry and holds the size as announced; another
    /// takes the size and is finalized if its logical position is known.
    pub open spec fn after_logical_size(self, width: i32, height: i32) -> WlxOutput {
        if self.done {
            WlxOutput {
                dirty: true,
                announced: Announced { logical_size: Some((width, height)), ..self.announced },
                ..self
            }
        } else {
            (WlxOutput { logical_size: (width, height), has_logical_size: true, ..self }).settled()
        }
    }

    /// The output after a resolution arrived: a finalized output of another
    /// resolution is marked dirty, keeps its own and holds the new one as
    /// announced. A resolution that the output has takes back an announced
    /// one.
    pub open spec fn after_mode(self, width: i32, height: i32) -> WlxOutput {
        if self.done && self.size != (width, height) {
            WlxOutput {
                dirty: true,
                announced: Announced { size: Some((width, height)), ..self.announced },
                ..self
            }
        } else {
            WlxOutput {
                size: (width, height),
                announced: Announced { size: None, ..self.announced },
                ..self
            }
        }
    }

    /// The output after model and transform arrived: a finalized output of
    /// another transform is marked dirty, keeps its own and holds the two as
    /// announced. A transform that the output has takes back an announced
    /// one.
    pub open spec fn after_geometry(self, model: String, transform: u32) -> WlxOutput {
        if self.done && self.transform != transform_of(transform) {
            WlxOutput {
                dirty: true,
                announced: Announced {
                    model: Some(model),
                    transform: Some(transform_of(transform)),
                    ..self.announced
                },
                ..self
            }
        } else {
            WlxOutput {
                model,
                transform: transform_of(transform),
                announced: Announced { model: None, transform: None, ..self.announced },
                ..self
            }
        }
    }

    /// The output with the announced geometry in place of its own, as a
    /// whole: each announced part replaces the shown one, nothing stays
    /// announced, the output is not dirty, and where a finalized output got
    /// a new logical position or size its rectangle is brought into
    /// canonical form.
    pub open spec fn with_announced(self) -> WlxOutput {
        let placed = WlxOutput {
            size: match self.announced.size {
                Some(size) => size,
                None => self.size,
            },
            model: match self.announced.model {
                Some(model) => model,
                None => self.model,
            },
            transform: match self.announced.transform {
                Some(transform) => transform,
                None => self.transform,
            },
            logical_pos: match self.announced.logical_pos {
                Some(position) => position,
                None => self.logical_pos,
            },
            logical_size: match self.announced.logical_size {
                Some(size) => size,
                None => self.logical_size,
            },
            dirty: false,
            announced: Announced::nothing(),
            ..self
        };
        if self.done && (self.announced.logical_pos is Some || self.announced.logical_size
            is Some) {
            placed.finalized()
        } else {
            placed
        }
    }

    /// The output as the pass stamped `now` leaves it when it observes the
    /// output's global again: a dirty output gets the announced geometry.
    pub open spec fn observed(self, now: u64) -> WlxOutput {
        if self.dirty {
            WlxOutput { updated: now, ..self.with_announced() }
        } else {
            WlxOutput { updated: now, ..self }
        }
    }

    /// The output with a stamp that is not `now`, if it carried `now`.
    pub open spec fn restamped(self, now: u64) -> WlxOutput {
        if self.updated == now {
            WlxOutput {
                updated: if now == u64::MAX {
                    0
                } else {
                    (now + 1) as u64
                },
                ..self
            }
        } else {
            self
        }
    }

    /// The right and bottom edge of the logical rectangle.
    pub open spec fn far_corner(self) -> (i32, i32) {
        (
            self.logical_pos.0.wrapping_add(self.logical_size.0),
            self.logical_pos.1.wrapping_add(self.logical_size.1),
        )
    }

    fn new(id: u32, name: &String, now: u64) -> (output: WlxOutput)
        ensures
            output == WlxOutput::fresh(id, *name, now),
    {
        WlxOutput {
            id,
            name: name.clone(),
            model: name.clone(),
            size: (0, 0),
            logical_pos: (0, 0),
            logical_size: (0, 0),
            transform: Transform::Normal,
            dirty: false,
            announced: Announced::none(),
            has_logical_pos: false,
            has_logical_size: false,
            done: false,
            updated: now,
        }
    }

    /// A copy of the output.
    pub fn duplicate(&self) -> (copy: WlxOutput)
        ensures
            copy == *self,
    {
        WlxOutput {
            id: self.id,
            name: self.name.clone(),
            model: self.model.clone(),
            size: self.size,
            logical_pos: self.logical_pos,
            logical_size: self.logical_size,
            transform: self.transform,
            dirty: self.dirty,
            announced: self.announced.duplicate(),
            has_logical_pos: self.has_logical_pos,
            has_logical_size: self.has_logical_size,
            done: self.done,
            updated: self.updated,
        }
    }

    /// Whether the pass stamped `now` observed the output's global.
    pub fn seen_at(&self, now: u64) -> (seen: bool)
        ensures
            seen == (self.updated == now),
    {
        self.updated == now
    }

    /// Brings the logical rectangle into canonical form and marks the output
    /// as finalized.
    pub fn finalize(&mut self)
        ensures
            *final(self) == old(self).finalized(),
    {
        let horizontal = normalize_axis(self.logical_pos.0, self.logical_size.0);
        let vertical = normalize_axis(self.logical_pos.1, self.logical_size.1);
        self.logical_pos = (horizontal.0, vertical.0);
        self.logical_size = (horizontal.1, vertical.1);
        self.dirty = false;
        self.done = true;
    }

    fn settle(&mut self)
        ensures
            *final(self) == old(self).settled(),
    {
        if self.has_logical_pos && self.has_logical_size {
            self.finalize();
        }
    }

    /// Puts the announced geometry in place of the shown one, as a whole.
    pub fn apply_announced(&mut self)
        ensures
            *final(self) == old(self).with_announced(),
    {
        let moved = self.announced.logical_pos.is_some() || self.announced.logical_size.is_some();
        let mut announced = Announced::none();
        core::mem::swap(&mut announced, &mut self.announced);
        if let Some(size) = announced.size {
            self.size = size;
        }
        if let Some(model) = announced.model {
            self.model = model;
        }
        if let Some(transform) = announced.transform {
            self.transform = transform;
        }
        if let Some(position) = announced.logical_pos {
            self.logical_pos = position;
        }
        if let Some(size) = announced.logical_size {
            self.logical_size = size;
        }
        self.dirty = false;
        if self.done && moved {
            self.finalize();
        }
    }

    /// Takes up that the pass stamped `now` observed the output's global: a
    /// dirty output gets the announced geometry.
    fn observe(&mut self, now: u64)
        ensures
            *final(self) == old(self).observed(now),
    {
        if self.dirty {
            self.apply_announced();
        }
        self.updated = now;
    }
}


/// One entry of the display server's list of globals.
pub struct Global {
    pub name: u32,
    pub interface: String,
    pub version: u32,
}

/// What the logical-geometry stream of an output reports.
pub enum XdgOutputEvent {
    Name { name: String },
    LogicalPosition { x: i32, y: i32 },
    LogicalSize { width: i32, height: i32 },
    Other,
}

/// What the physical stream of an output reports. `transform` is the wire
/// value.
pub enum WlOutputEvent {
    Mode { width: i32, height: i32 },
    Geometry { model: String, transform: u32 },
    Other,
}

/// What the list of globals reports.
pub enum RegistryEvent {
    Global { name: u32, interface: String },
    GlobalRemove { name: u32 },
    Other,
}

/// An event of the display server, for the registry.
pub enum ClientEvent {
    /// An event of the logical-geometry stream of output `id`.
    XdgOutput { id: u32, xdg: XdgOutputEvent },
    /// An event of the physical stream of output `id`.
    WlOutput { id: u32, output: WlOutputEvent },
    /// A change of the list of globals.
    Registry { registry: RegistryEvent },
}

/// What the caller owes the display server after a refresh pass: bind the
/// output global `id` at `version` and, where the output is new to the
/// registry, ask for its logical geometry.
#[derive(Clone, Copy, PartialEq, Eq, Structural, Debug)]
pub struct OutputBinding {
    pub id: u32,
    pub version: u32,
    pub created: bool,
}

/// The result of a refresh pass.
pub struct Refresh {
    /// The set of outputs is not what it was before the pass.
    pub changed: bool,
    /// The output globals that the pass observed, in the order of the list.
    pub bound: Vec<OutputBinding>,
}

/// The outputs of a registry, by id. The table is an `idmap::IdMap`.
#[verifier::external_body]
pub struct OutputTable {
    entries: IdMap<u32, WlxOutput>,
}

/// The outputs that a table holds, by id.
pub uninterp spec fn outputs_of(table: OutputTable) -> Map<u32, WlxOutput>;

/// The part of `outputs` that the pass stamped `now` has observed.
pub open spec fn seen_in_pass(outputs: Map<u32, WlxOutput>, now: u64) -> Map<u32, WlxOutput> {
    outputs.restrict(Set::new(|id: u32| outputs.contains_key(id) && outputs[id].updated == now))
}

impl OutputTable {
    /// `IdMap::new`: the new map holds nothing.
    #[verifier::external_body]
    fn new() -> (table: OutputTable)
        ensures
            outputs_of(table).dom() == Set::<u32>::empty(),
    {
        OutputTable { entries: IdMap::new() }
    }

    /// `IdMap::get`: the value under `id`, where there is one. The map
    /// panics on the key `u32::MAX`, which it cannot hold.
    #[verifier::external_body]
    fn get(&self, id: u32) -> (found: Option<&WlxOutput>)
        requires
            id < u32::MAX,
        ensures
            found is Some <==> outputs_of(*self).contains_key(id),
            found is Some ==> *found.unwrap() == outputs_of(*self)[id],
    {
        self.entries.get(id)
    }

    /// `IdMap::insert`: puts `output` under `id`, in place of what was there,
    /// and returns what was there. The map panics on the key `u32::MAX`.
    #[verifier::external_body]
    fn insert(&mut self, id: u32, output: WlxOutput) -> (previous: Option<WlxOutput>)
        requires
            id < u32::MAX,
        ensures
            outputs_of(*final(self)) == outputs_of(*old(self)).insert(id, output),
            previous is Some <==> outputs_of(*old(self)).contains_key(id),
            previous is Some ==> previous.unwrap() == outputs_of(*old(self))[id],
        no_unwind
    {
        self.entries.insert(id, output)
    }

    /// `IdMap::retain`, with the test `WlxOutput::seen_at`: keeps the entries
    /// that the pass stamped `now` has observed, unchanged, and drops the
    /// others.
    #[verifier::external_body]
    fn retain_seen(&mut self, now: u64)
        ensures
            outputs_of(*final(self)) == seen_in_pass(outputs_of(*old(self)), now),
        no_unwind
    {
        self.entries.retain(|_, output| output.seen_at(now))
    }

    /// `IdMap::len`: the number of entries.
    #[verifier::external_body]
    fn len(&self) -> (len: usize)
        ensures
            len == outputs_of(*self).dom().len(),
    {
        self.entries.len()
    }

    /// `IdMap::keys`: every key of the map, each once.
    #[verifier::external_body]
    fn ids(&self) -> (ids: Vec<u32>)
        ensures
            ids@.no_duplicates(),
            ids@.to_set() == outputs_of(*self).dom(),
    {
        self.entries.keys().copied().collect()
    }
}

/// `WlOutput::interface().name`: the protocol name of the output interface,
/// which is `wl_output`.
#[verifier::external_body]
fn output_interface_name() -> (name: String)
    ensures
        name@ == "wl_output"@,
{
    WlOutput::interface().name.to_owned()
}

/// Whether a global of this interface, under this name, is an output that the
/// registry can track. The table has no room for the name `u32::MAX`.
pub open spec fn trackable(global: Global) -> bool {
    global.interface@ == "wl_output"@ && global.name < u32::MAX
}

/// Whether one of `globals` is a trackable output named `id`.
pub open spec fn observed_in(globals: Seq<Global>, id: u32) -> bool {
    exists|i: int|
        0 <= i < globals.len() && trackable(#[trigger] globals[i]) && globals[i].name == id
}

/// The bindings that a pass over `globals` owes, given the ids `known`
/// before the pass: one for each trackable output global, in order, marked
/// as created where the pass met that id for the first time.
pub open spec fn bindings_of(known: Set<u32>, globals: Seq<Global>) -> Seq<OutputBinding>
    decreases globals.len(),
{
    if globals.len() == 0 {
        Seq::empty()
    } else {
        let earlier = globals.drop_last();
        let global = globals.last();
        if trackable(global) {
            bindings_of(known, earlier).push(
                OutputBinding {
                    id: global.name,
                    version: global.version,
                    created: !known.contains(global.name) && !observed_in(earlier, global.name),
                },
            )
        } else {
            bindings_of(known, earlier)
        }
    }
}

/// What a registry holds, as contracts see it.
pub struct ClientView {
    pub outputs: Map<u32, WlxOutput>,
    pub dirty: bool,
    pub default_output_name: String,
    pub dmabuf_manager: bool,
    pub screencopy_manager: bool,
}

impl ClientView {
    /// The view with `output` in place of the output of the same id.
    pub open spec fn with_output(self, output: WlxOutput, dirty: bool) -> ClientView {
        ClientView { outputs: self.outputs.insert(output.id, output), dirty, ..self }
    }

    /// The view after an event of the logical-geometry stream of output
    /// `id`. An event for an output that is not tracked changes nothing. A
    /// geometry event for a finalized output marks the registry dirty.
    pub open spec fn after_xdg_output_event(self, id: u32, event: XdgOutputEvent) -> ClientView {
        if !self.outputs.contains_key(id) {
            self
        } else {
            let output = self.outputs[id];
            match event {
                XdgOutputEvent::Name { name } => self.with_output(
                    output.after_name(name),
                    self.dirty,
                ),
                XdgOutputEvent::LogicalPosition { x, y } => self.with_output(
                    output.after_logical_position(x, y),
                    self.dirty || output.done,
                ),
                XdgOutputEvent::LogicalSize { width, height } => self.with_output(
                    output.after_logical_size(width, height),
                    self.dirty || output.done,
                ),
                XdgOutputEvent::Other => self,
            }
        }
    }

    /// The view after an event of the physical stream of output `id`. An
    /// event for an output that is not tracked changes nothing. A resolution
    /// or transform that differs from that of a finalized output marks the
    /// registry dirty.
    pub open spec fn after_wl_output_event(self, id: u32, event: WlOutputEvent) -> ClientView {
        if !self.outputs.contains_key(id) {
            self
        } else {
            let output = self.outputs[id];
            match event {
                WlOutputEvent::Mode { width, height } => self.with_output(
                    output.after_mode(width, height),
                    self.dirty || (output.done && output.size != (width, height)),
                ),
                WlOutputEvent::Geometry { model, transform } => self.with_output(
                    output.after_geometry(model, transform),
                    self.dirty || (output.done && output.transform != transform_of(transform)),
                ),
                WlOutputEvent::Other => self,
            }
        }
    }

    /// The view after a change of the list of globals. A new output global
    /// marks the registry dirty; the removal of a tracked output marks the
    /// output and the registry dirty.
    pub open spec fn after_registry_event(self, event: RegistryEvent) -> ClientView {
        match event {
            RegistryEvent::Global { name, interface } => ClientView {
                dirty: self.dirty || interface@ == "wl_output"@,
                ..self
            },
            RegistryEvent::GlobalRemove { name } => if self.outputs.contains_key(name) {
                self.with_output(self.outputs[name].marked_dirty(), true)
            } else {
                self
            },
            RegistryEvent::Other => self,
        }
    }

    /// The view after an event of the display server.
    pub open spec fn after_event(self, event: ClientEvent) -> ClientView {
        match event {
            ClientEvent::XdgOutput { id, xdg } => self.after_xdg_output_event(id, xdg),
            ClientEvent::WlOutput { id, output } => self.after_wl_output_event(id, output),
            ClientEvent::Registry { registry } => self.after_registry_event(registry),
        }
    }

    /// The output that a pass stamped `now` leaves under `id`, where it
    /// leaves one.
    pub open spec fn refreshed_output(self, id: u32, now: u64) -> WlxOutput {
        if self.outputs.contains_key(id) {
            self.outputs[id].observed(now)
        } else {
            WlxOutput::fresh(id, self.default_output_name, now)
        }
    }

    /// The view after a refresh pass over `globals`, stamped `now`. The pass
    /// keeps the outputs that it observes and gives the dirty ones among
    /// them their announced geometry, creates the outputs that it observes
    /// for the first time, and prunes the others.
    pub open spec fn refreshed(self, globals: Seq<Global>, now: u64) -> ClientView {
        ClientView {
            outputs: Map::new(
                |id: u32| observed_in(globals, id),
                |id: u32| self.refreshed_output(id, now),
            ),
            ..self
        }
    }

    /// Whether a refresh pass over `globals`, stamped `now`, changes the set
    /// of outputs: it creates one or prunes one.
    pub open spec fn refresh_changes(self, globals: Seq<Global>, now: u64) -> bool {
        ||| exists|id: u32| observed_in(globals, id) && !self.outputs.contains_key(id)
        ||| exists|id: u32| #[trigger]
            self.outputs.contains_key(id) && !self.refreshed(globals, now).outputs.contains_key(id)
    }

    /// Whether `extent` is the far corner of the desktop: on each axis the
    /// greatest far edge of an output, and zero where no edge is positive.
    pub open spec fn has_extent(self, extent: (i32, i32)) -> bool {
        &&& extent.0 >= 0
        &&& extent.1 >= 0
        &&& forall|id: u32| #[trigger]
            self.outputs.contains_key(id) ==> self.outputs[id].far_corner().0 <= extent.0
                && self.outputs[id].far_corner().1 <= extent.1
        &&& extent.0 == 0 || exists|id: u32| #[trigger]
            self.outputs.contains_key(id) && self.outputs[id].far_corner().0 == extent.0
        &&& extent.1 == 0 || exists|id: u32| #[trigger]
            self.outputs.contains_key(id) && self.outputs[id].far_corner().1 == extent.1
    }
}

/// The output registry of one connection to the display server.
pub struct WlxClient {
    outputs: OutputTable,
    dirty: bool,
    default_output_name: String,
    dmabuf_manager: bool,
    screencopy_manager: bool,
}

impl View for WlxClient {
    type V = ClientView;

    closed spec fn view(&self) -> ClientView {
        ClientView {
            outputs: outputs_of(self.outputs),
            dirty: self.dirty,
            default_output_name: self.default_output_name,
            dmabuf_manager: self.dmabuf_manager,
            screencopy_manager: self.screencopy_manager,
        }
    }
}

impl WlxClient {
    /// The table is finite, has no entry under `u32::MAX`, and holds each
    /// output under its own id.
    #[verifier::type_invariant]
    spec fn inv(&self) -> bool {
        &&& outputs_of(self.outputs).dom().finite()
        &&& forall|id: u32| #[trigger]
            outputs_of(self.outputs).contains_key(id) ==> id < u32::MAX && outputs_of(
                self.outputs,
            )[id].id == id
    }

    /// A registry that tracks no output yet. The two flags say whether the
    /// display server offers DMA-BUF export and screencopy.
    pub fn new(dmabuf_manager: bool, screencopy_manager: bool) -> (client: WlxClient)
        ensures
            client@.outputs =~= Map::empty(),
            !client@.dirty,
            client@.default_output_name@ == "Unknown"@,
            client@.dmabuf_manager == dmabuf_manager,
            client@.screencopy_manager == screencopy_manager,
    {
        let outputs = OutputTable::new();
        assert(outputs_of(outputs) =~= Map::<u32, WlxOutput>::empty());
        WlxClient {
            outputs,
            dirty: false,
            default_output_name: "Unknown".to_owned(),
            dmabuf_manager,
            screencopy_manager,
        }
    }

    /// Whether something changed that only a refresh takes up.
    pub fn is_dirty(&self) -> (dirty: bool)
        ensures
            dirty == self@.dirty,
    {
        self.dirty
    }

    pub fn has_dmabuf_manager(&self) -> (present: bool)
        ensures
            present == self@.dmabuf_manager,
    {
        self.dmabuf_manager
    }

    pub fn has_screencopy_manager(&self) -> (present: bool)
        ensures
            present == self@.screencopy_manager,
    {
        self.screencopy_manager
    }

    /// A copy of the output tracked under `id`.
    pub fn output(&self, id: u32) -> (output: Option<WlxOutput>)
        ensures
            output is Some <==> self@.outputs.contains_key(id),
            output is Some ==> output.unwrap() == self@.outputs[id] && output.unwrap().id == id
                && id < u32::MAX,
    {
        proof {
            use_type_invariant(self);
        }
        if id == u32::MAX {
            return None;
        }
        match self.outputs.get(id) {
            Some(found) => Some(found.duplicate()),
            None => None,
        }
    }

    /// The ids of the tracked outputs, each once.
    pub fn output_ids(&self) -> (ids: Vec<u32>)
        ensures
            ids@.no_duplicates(),
            ids@.to_set() == self@.outputs.dom(),
    {
        self.outputs.ids()
    }

    fn store(&mut self, output: WlxOutput)
        requires
            output.id < u32::MAX,
        ensures
            final(self)@ == old(self)@.with_output(output, old(self)@.dirty),
    {
        proof {
            use_type_invariant(&*self);
        }
        let id: u32 = output.id;
        self.outputs.insert(id, output);
    }

    /// Takes up an event of the logical-geometry stream of output `id`.
    /// Before the output is finalized the event fills in its fields, and the
    /// output is finalized once both position and size are known. Afterwards
    /// a geometry event leaves the shown geometry alone: it sets the two
    /// dirty flags and is kept as announced, for the next refresh to apply.
    pub fn xdg_output_event(&mut self, id: u32, event: XdgOutputEvent)
        ensures
            final(self)@ == old(self)@.after_xdg_output_event(id, event),
    {
        proof {
            use_type_invariant(&*self);
        }
        let Some(current) = self.output(id) else {
            return ;
        };
        let mut output = current;
        match event {
            XdgOutputEvent::Name { name } => {
                output.name = name;
                self.store(output);
            },
            XdgOutputEvent::LogicalPosition { x, y } => {
                if output.done {
                    output.dirty = true;
                    output.announced.logical_pos = Some((x, y));
                    self.store(output);
                    self.dirty = true;
                } else {
                    output.logical_pos = (x, y);
                    output.has_logical_pos = true;
                    output.settle();
                    self.store(output);
                }
            },
            XdgOutputEvent::LogicalSize { width, height } => {
                if output.done {
                    output.dirty = true;
                    output.announced.logical_size = Some((width, height));
                    self.store(output);
                    self.dirty = true;
                } else {
                    output.logical_size = (width, height);
                    output.has_logical_size = true;
                    output.settle();
                    self.store(output);
                }
            },
            XdgOutputEvent::Other => {},
        }
    }

    /// Takes up an event of the physical stream of output `id`. Once the
    /// output is finalized, a resolution or transform that differs from the
    /// shown one leaves it alone: it sets the two dirty flags and is kept as
    /// announced, for the next refresh to apply.
    pub fn wl_output_event(&mut self, id: u32, event: WlOutputEvent)
        ensures
            final(self)@ == old(self)@.after_wl_output_event(id, event),
    {
        proof {
            use_type_invariant(&*self);
        }
        let Some(current) = self.output(id) else {
            return ;
        };
        let mut output = current;
        match event {
            WlOutputEvent::Mode { width, height } => {
                if output.done && (output.size.0 != width || output.size.1 != height) {
                    output.dirty = true;
                    output.announced.size = Some((width, height));
                    self.store(output);
                    self.dirty = true;
                } else {
                    output.size = (width, height);
                    output.announced.size = None;
                    self.store(output);
                }
            },
            WlOutputEvent::Geometry { model, transform } => {
                let transform = transform_from_wire(transform);
                if output.done && output.transform != transform {
                    output.dirty = true;
                    output.announced.model = Some(model);
                    output.announced.transform = Some(transform);
                    self.store(output);
                    self.dirty = true;
                } else {
                    output.model = model;
                    output.transform = transform;
                    output.announced.model = None;
                    output.announced.transform = None;
                    self.store(output);
                }
            },
            WlOutputEvent::Other => {},
        }
    }

    /// Takes up a change of the list of globals. A new output global marks
    /// the registry dirty; the removal of a tracked output marks the output
    /// and the registry dirty.
    pub fn registry_event(&mut self, event: RegistryEvent)
        ensures
            final(self)@ == old(self)@.after_registry_event(event),
    {
        proof {
            use_type_invariant(&*self);
        }
        match event {
            RegistryEvent::Global { name, interface } => {
                let output_interface = output_interface_name();
                if interface == output_interface {
                    self.dirty = true;
                }
            },
            RegistryEvent::GlobalRemove { name } => {
                if let Some(current) = self.output(name) {
                    let mut output = current;
                    output.dirty = true;
                    self.store(output);
                    self.dirty = true;
                }
            },
            RegistryEvent::Other => {},
        }
    }
}


impl WlxClient {
    /// Takes up an event of the display server: of the logical-geometry
    /// stream or the physical stream of an output, or of the list of
    /// globals.
    pub fn event(&mut self, event: ClientEvent)
        ensures
            final(self)@ == old(self)@.after_event(event),
    {
        match event {
            ClientEvent::XdgOutput { id, xdg } => self.xdg_output_event(id, xdg),
            ClientEvent::WlOutput { id, output } => self.wl_output_event(id, output),
            ClientEvent::Registry { registry } => self.registry_event(registry),
        }
    }
}

/// The outputs while a pass is under way: those known before it and those
/// observed in the globals `seen` so far.
spec fn merged_outputs(before: ClientView, seen: Seq<Global>, now: u64) -> Map<u32, WlxOutput> {
    Map::new(
        |id: u32| before.outputs.contains_key(id) || observed_in(seen, id),
        |id: u32|
            if observed_in(seen, id) {
                before.refreshed_output(id, now)
            } else {
                before.outputs[id].restamped(now)
            },
    )
}

proof fn lemma_observed_in_push(seen: Seq<Global>, global: Global, id: u32)
    ensures
        observed_in(seen.push(global), id) <==> observed_in(seen, id) || (trackable(global)
            && global.name == id),
{
    let next = seen.push(global);
    if observed_in(seen, id) {
        let j = choose|j: int|
            0 <= j < seen.len() && trackable(#[trigger] seen[j]) && seen[j].name == id;
        assert(next[j] == seen[j]);
    }
    if trackable(global) && global.name == id {
        assert(next[seen.len() as int] == global);
    }
    if observed_in(next, id) {
        let j = choose|j: int|
            0 <= j < next.len() && trackable(#[trigger] next[j]) && next[j].name == id;
        if j < seen.len() {
            assert(seen[j] == next[j]);
        }
    }
}

proof fn lemma_merged_step(before: ClientView, seen: Seq<Global>, global: Global, now: u64)
    ensures
        trackable(global) ==> merged_outputs(before, seen.push(global), now) == merged_outputs(
            before,
            seen,
            now,
        ).insert(global.name, before.refreshed_output(global.name, now)),
        !trackable(global) ==> merged_outputs(before, seen.push(global), now) == merged_outputs(
            before,
            seen,
            now,
        ),
{
    let next = seen.push(global);
    assert forall|id: u32|
        observed_in(next, id) <==> observed_in(seen, id) || (trackable(global) && global.name
            == id) by {
        lemma_observed_in_push(seen, global, id);
    }
    if trackable(global) {
        assert(merged_outputs(before, next, now) =~= merged_outputs(before, seen, now).insert(
            global.name,
            before.refreshed_output(global.name, now),
        ));
    } else {
        assert(merged_outputs(before, next, now) =~= merged_outputs(before, seen, now));
    }
}

proof fn lemma_seen_in_pass(outputs: Map<u32, WlxOutput>, now: u64)
    requires
        outputs.dom().finite(),
    ensures
        seen_in_pass(outputs, now).dom().finite(),
        seen_in_pass(outputs, now).dom().subset_of(outputs.dom()),
        forall|id: u32|
            seen_in_pass(outputs, now).contains_key(id) <==> outputs.contains_key(id)
                && outputs[id].updated == now,
        forall|id: u32|
            seen_in_pass(outputs, now).contains_key(id) ==> seen_in_pass(outputs, now)[id]
                == outputs[id],
{
    vstd::set_lib::lemma_set_subset_finite(outputs.dom(), seen_in_pass(outputs, now).dom());
}

/// The outputs with every carrier of the stamp `now` given another stamp.
spec fn restamped_outputs(outputs: Map<u32, WlxOutput>, now: u64) -> Map<u32, WlxOutput> {
    Map::new(|id: u32| outputs.contains_key(id), |id: u32| outputs[id].restamped(now))
}

impl WlxClient {
    /// Takes the stamp `now` from every output that carries it, so that the
    /// pass stamped `now` can tell what it has observed.
    fn restamp(&mut self, now: u64)
        ensures
            final(self)@ == (ClientView {
                outputs: restamped_outputs(old(self)@.outputs, now),
                ..old(self)@
            }),
    {
        proof {
            use_type_invariant(&*self);
        }
        let ghost before = self@;
        let other: u64 = if now == u64::MAX {
            0
        } else {
            now + 1
        };
        let ids = self.outputs.ids();
        let mut i: usize = 0;
        while i < ids.len()
            invariant
                i <= ids.len(),
                self.inv(),
                ids@.no_duplicates(),
                ids@.to_set() == before.outputs.dom(),
                other != now,
                other == (if now == u64::MAX {
                    0
                } else {
                    (now + 1) as u64
                }),
                self@ == (ClientView { outputs: self@.outputs, ..before }),
                self@.outputs.dom() == before.outputs.dom(),
                forall|j: int|
                    0 <= j < i ==> #[trigger] self@.outputs[ids@[j]] == before.outputs[ids@[j]].restamped(
                        now,
                    ),
                forall|j: int|
                    i <= j < ids@.len() ==> #[trigger] self@.outputs[ids@[j]]
                        == before.outputs[ids@[j]],
            decreases ids.len() - i,
        {
            let id: u32 = ids[i];
            assert(ids@.to_set().contains(ids@[i as int]));
            let ghost during = self@.outputs;
            if let Some(current) = self.output(id) {
                if current.updated == now {
                    let mut output = current;
                    output.updated = other;
                    self.store(output);
                    assert(self@.outputs.dom() =~= before.outputs.dom());
                }
            }
            proof {
                assert forall|j: int| 0 <= j < ids@.len() && j != i implies self@.outputs[ids@[j]]
                    == during[ids@[j]] by {
                    assert(ids@[j] != ids@[i as int]);
                }
            }
            i += 1;
        }
        proof {
            assert forall|id: u32| before.outputs.contains_key(id) implies self@.outputs[id]
                == before.outputs[id].restamped(now) by {
                assert(ids@.to_set().contains(id));
                let j = choose|j: int| 0 <= j < ids@.len() && ids@[j] == id;
                assert(self@.outputs[ids@[j]] == before.outputs[ids@[j]].restamped(now));
            }
            assert(self@.outputs =~= restamped_outputs(before.outputs, now));
        }
    }

    /// Reconciles the outputs with the current list of globals, in one pass
    /// stamped `now`: an output global that the registry does not know yet
    /// gets a new output, a known one is stamped and, if it is dirty, gets
    /// the geometry that was announced for it, as a whole, and an output
    /// that the pass has not observed is pruned. The result says whether the
    /// set of outputs changed and what the caller has to bind. The dirty
    /// flag of the registry stays as it is.
    pub fn refresh_outputs(&mut self, globals: &Vec<Global>, now: u64) -> (refresh: Refresh)
        ensures
            final(self)@ == old(self)@.refreshed(globals@, now),
            refresh.changed == old(self)@.refresh_changes(globals@, now),
            refresh.bound@ == bindings_of(old(self)@.outputs.dom(), globals@),
    {
        proof {
            use_type_invariant(&*self);
        }
        let ghost before = self@;
        self.restamp(now);
        proof {
            use_type_invariant(&*self);
        }
        let output_interface = output_interface_name();
        let mut changed = false;
        let mut bound: Vec<OutputBinding> = Vec::new();
        let mut i: usize = 0;
        assert(self@.outputs =~= merged_outputs(before, globals@.take(0), now));
        while i < globals.len()
            invariant
                i <= globals.len(),
                output_interface@ == "wl_output"@,
                self.inv(),
                before.outputs.dom().finite(),
                self@ == (ClientView {
                    outputs: merged_outputs(before, globals@.take(i as int), now),
                    ..before
                }),
                changed == exists|id: u32|
                    observed_in(globals@.take(i as int), id) && !before.outputs.contains_key(id),
                bound@ == bindings_of(before.outputs.dom(), globals@.take(i as int)),
            decreases globals.len() - i,
        {
            let global = &globals[i];
            let ghost seen = globals@.take(i as int);
            let ghost next = globals@.take(i + 1);
            proof {
                assert(next == seen.push(globals@[i as int]));
                assert(next.drop_last() == seen);
                lemma_merged_step(before, seen, globals@[i as int], now);
                assert forall|id: u32|
                    observed_in(next, id) <==> observed_in(seen, id) || (trackable(
                        globals@[i as int],
                    ) && globals@[i as int].name == id) by {
                    lemma_observed_in_push(seen, globals@[i as int], id);
                }
            }
            if global.interface == output_interface && global.name < u32::MAX {
                let id: u32 = global.name;
                let known = self.output(id);
                let created = known.is_none();
                let output = match known {
                    Some(current) => {
                        let mut output = current;
                        if !output.seen_at(now) {
                            output.observe(now);
                        }
                        output
                    },
                    None => WlxOutput::new(id, &self.default_output_name, now),
                };
                assert(output == before.refreshed_output(id, now));
                self.store(output);
                if created {
                    changed = true;
                }
                bound.push(OutputBinding { id, version: global.version, created });
            }
            i += 1;
            assert(globals@.take(i as int) == next);
        }
        assert(globals@.take(i as int) == globals@);
        let ghost merged = self@.outputs;
        proof {
            lemma_seen_in_pass(merged, now);
        }
        let old_len = self.outputs.len();
        self.outputs.retain_seen(now);
        let new_len = self.outputs.len();
        proof {
            let pruned = self@.outputs;
            let target = before.refreshed(globals@, now).outputs;
            assert(pruned =~= target);
            if old_len == new_len {
                vstd::set_lib::lemma_subset_equality(pruned.dom(), merged.dom());
                assert forall|id: u32| #[trigger]
                    before.outputs.contains_key(id) implies target.contains_key(id) by {
                    assert(merged.dom().contains(id));
                }
            } else {
                if forall|id: u32| merged.dom().contains(id) ==> pruned.dom().contains(id) {
                    assert(merged.dom() =~= pruned.dom());
                }
                let gone = choose|id: u32| merged.dom().contains(id) && !pruned.dom().contains(id);
                assert(before.outputs.contains_key(gone) && !target.contains_key(gone));
            }
        }
        if old_len != new_len {
            changed = true;
        }
        Refresh { changed, bound }
    }

    /// Refreshes if something changed since the last refresh, which applies
    /// the announced geometry of the dirty outputs, and clears the dirty
    /// flag. Tells whether the set of outputs changed.
    pub fn refresh_if_dirty(&mut self, globals: &Vec<Global>, now: u64) -> (refresh: Refresh)
        ensures
            old(self)@.dirty ==> final(self)@ == (ClientView {
                dirty: false,
                ..old(self)@.refreshed(globals@, now)
            }),
            old(self)@.dirty ==> refresh.changed == old(self)@.refresh_changes(globals@, now),
            old(self)@.dirty ==> refresh.bound@ == bindings_of(old(self)@.outputs.dom(), globals@),
            !old(self)@.dirty ==> final(self)@ == old(self)@,
            !old(self)@.dirty ==> !refresh.changed && refresh.bound@.len() == 0,
    {
        if self.dirty {
            let refresh = self.refresh_outputs(globals, now);
            proof {
                use_type_invariant(&*self);
            }
            self.dirty = false;
            refresh
        } else {
            Refresh { changed: false, bound: Vec::new() }
        }
    }

    /// Get the logical width and height of the desktop: on each axis the
    /// greatest far edge of an output, and zero where there is none.
    pub fn get_desktop_extent(&self) -> (extent: (i32, i32))
        ensures
            self@.has_extent(extent),
    {
        proof {
            use_type_invariant(self);
        }
        let ids = self.outputs.ids();
        let mut extent: (i32, i32) = (0, 0);
        let mut i: usize = 0;
        while i < ids.len()
            invariant
                i <= ids.len(),
                self.inv(),
                ids@.to_set() == self@.outputs.dom(),
                extent.0 >= 0,
                extent.1 >= 0,
                forall|j: int|
                    0 <= j < i ==> (#[trigger] self@.outputs[ids@[j]]).far_corner().0 <= extent.0
                        && self@.outputs[ids@[j]].far_corner().1 <= extent.1,
                extent.0 == 0 || exists|j: int|
                    0 <= j < i && (#[trigger] self@.outputs[ids@[j]]).far_corner().0 == extent.0,
                extent.1 == 0 || exists|j: int|
                    0 <= j < i && (#[trigger] self@.outputs[ids@[j]]).far_corner().1 == extent.1,
            decreases ids.len() - i,
        {
            let id: u32 = ids[i];
            assert(ids@.to_set().contains(ids@[i as int]));
            let found = self.outputs.get(id);
            let output = found.unwrap();
            let right: i32 = output.logical_pos.0.wrapping_add(output.logical_size.0);
            let bottom: i32 = output.logical_pos.1.wrapping_add(output.logical_size.1);
            if right > extent.0 {
                extent.0 = right;
            }
            if bottom > extent.1 {
                extent.1 = bottom;
            }
            i += 1;
        }
        proof {
            assert forall|id: u32| #[trigger] self@.outputs.contains_key(id) implies self@.outputs[id]
                .far_corner().0 <= extent.0 && self@.outputs[id].far_corner().1 <= extent.1 by {
                assert(ids@.to_set().contains(id));
                let j = choose|j: int| 0 <= j < ids@.len() && ids@[j] == id;
                assert(self@.outputs[ids@[j]].far_corner().0 <= extent.0);
            }
            if extent.0 != 0 {
                let j = choose|j: int|
                    0 <= j < i && (#[trigger] self@.outputs[ids@[j]]).far_corner().0 == extent.0;
                assert(ids@.to_set().contains(ids@[j]));
                assert(self@.outputs.contains_key(ids@[j]));
            }
            if extent.1 != 0 {
                let j = choose|j: int|
                    0 <= j < i && (#[trigger] self@.outputs[ids@[j]]).far_corner().1 == extent.1;
                assert(ids@.to_set().contains(ids@[j]));
                assert(self@.outputs.contains_key(ids@[j]));
            }
        }
        extent
    }
}


impl WlxOutput {
    /// The output is finalized exactly when both its logical position and
    /// its logical size have been observed.
    pub open spec fn coherent(self) -> bool {
        self.done == (self.has_logical_pos && self.has_logical_size)
    }
}

/// An output stays coherent under every event, and a new output is coherent:
/// it is finalized once both logical position and logical size have been
/// observed, and not before.
pub proof fn events_keep_outputs_coherent(
    output: WlxOutput,
    name: String,
    first: i32,
    second: i32,
    transform: u32,
    now: u64,
)
    requires
        output.coherent(),
    ensures
        WlxOutput::fresh(output.id, name, now).coherent(),
        !WlxOutput::fresh(output.id, name, now).done,
        output.after_name(name).coherent(),
        output.after_logical_position(first, second).coherent(),
        output.after_logical_size(first, second).coherent(),
        output.after_mode(first, second).coherent(),
        output.after_geometry(name, transform).coherent(),
        output.marked_dirty().coherent(),
        output.with_announced().coherent(),
        output.observed(now).coherent(),
        output.restamped(now).coherent(),
{
}

/// The geometry that an output shows.
pub open spec fn shown_geometry(output: WlxOutput) -> (
    (i32, i32),
    (i32, i32),
    (i32, i32),
    Transform,
) {
    (output.logical_pos, output.logical_size, output.size, output.transform)
}

/// Once an output is finalized, no event changes the geometry that it shows:
/// a geometry event that would change it marks the output dirty and is kept
/// as announced.
pub proof fn finalized_geometry_is_frozen(
    output: WlxOutput,
    name: String,
    first: i32,
    second: i32,
    transform: u32,
)
    requires
        output.done,
    ensures
        shown_geometry(output.after_logical_position(first, second)) == shown_geometry(output),
        shown_geometry(output.after_logical_size(first, second)) == shown_geometry(output),
        shown_geometry(output.after_mode(first, second)) == shown_geometry(output),
        shown_geometry(output.after_geometry(name, transform)) == shown_geometry(output),
        shown_geometry(output.marked_dirty()) == shown_geometry(output),
        output.after_logical_position(first, second).dirty,
        output.after_logical_position(first, second).announced.logical_pos == Some((first, second)),
        output.after_logical_size(first, second).dirty,
        output.after_logical_size(first, second).announced.logical_size == Some((first, second)),
        output.size != (first, second) ==> output.after_mode(first, second).dirty
            && output.after_mode(first, second).announced.size == Some((first, second)),
        output.transform != transform_of(transform) ==> output.after_geometry(name, transform).dirty
            && output.after_geometry(name, transform).announced.transform == Some(
            transform_of(transform),
        ),
        output.after_logical_position(first, second).done,
        output.after_logical_size(first, second).done,
        output.after_mode(first, second).done,
        output.after_geometry(name, transform).done,
{
}

/// A refresh applies the announced geometry as a whole: a finalized output
/// for which a logical position, a logical size, a resolution and a
/// transform were announced shows, once the announced geometry is applied,
/// all four, the logical rectangle in canonical form, and is not dirty;
/// nothing stays announced.
pub proof fn announced_geometry_is_applied_whole(
    output: WlxOutput,
    position: (i32, i32),
    size: (i32, i32),
    mode: (i32, i32),
    model: String,
    transform: u32,
)
    requires
        output.done,
        output.size != mode,
        output.transform != transform_of(transform),
    ensures
        ({
            let announced = output.after_logical_position(position.0, position.1).after_logical_size(
                size.0,
                size.1,
            ).after_mode(mode.0, mode.1).after_geometry(model, transform);
            let applied = announced.with_announced();
            &&& shown_geometry(announced) == shown_geometry(output)
            &&& announced.dirty
            &&& applied.logical_pos == (
                normalized_axis(position.0, size.0).0,
                normalized_axis(position.1, size.1).0,
            )
            &&& applied.logical_size == (
                normalized_axis(position.0, size.0).1,
                normalized_axis(position.1, size.1).1,
            )
            &&& applied.size == mode
            &&& applied.model == model
            &&& applied.transform == transform_of(transform)
            &&& !applied.dirty
            &&& applied.done
            &&& applied.announced == Announced::nothing()
            &&& applied.id == output.id
            &&& applied.name == output.name
        }),
{
}

/// The pass gives a tracked, listed and dirty output the geometry that was
/// announced for it, and leaves it not dirty; an output that is not dirty
/// keeps what it shows.
pub proof fn refresh_applies_announced_geometry(
    view: ClientView,
    globals: Seq<Global>,
    now: u64,
    id: u32,
)
    requires
        view.outputs.contains_key(id),
        observed_in(globals, id),
    ensures
        view.refreshed(globals, now).outputs.contains_key(id),
        view.outputs[id].dirty ==> view.refreshed(globals, now).outputs[id] == (WlxOutput {
            updated: now,
            ..view.outputs[id].with_announced()
        }),
        view.outputs[id].dirty ==> !view.refreshed(globals, now).outputs[id].dirty,
        !view.outputs[id].dirty ==> view.refreshed(globals, now).outputs[id] == (WlxOutput {
            updated: now,
            ..view.outputs[id]
        }),
{
}

/// An output that is not finalized, whose logical position `(x, y)` is
/// known, and for which a logical size of negative width arrives, is
/// finalized with the position moved by the width and the width negated,
/// where no 32-bit value overflows: at `x = 50` the width `-100` gives
/// `x = -50` and the width `100`.
pub proof fn flipped_width_is_normalized(
    view: ClientView,
    id: u32,
    x: i32,
    y: i32,
    width: i32,
    height: i32,
)
    requires
        view.outputs.contains_key(id),
        view.outputs[id].id == id,
        !view.outputs[id].done,
        view.outputs[id].has_logical_pos,
        view.outputs[id].logical_pos == (x, y),
        i32::MIN < width < 0,
        x + width >= i32::MIN,
        height >= 0,
    ensures
        ({
            let after = view.after_xdg_output_event(id, XdgOutputEvent::LogicalSize { width, height });
            &&& after.outputs.contains_key(id)
            &&& after.outputs[id].logical_pos == ((x + width) as i32, y)
            &&& after.outputs[id].logical_size == ((-width) as i32, height)
            &&& after.outputs[id].done
            &&& !after.outputs[id].dirty
            &&& after.dirty == view.dirty
        }),
        x == 50 && width == -100 ==> view.after_xdg_output_event(
            id,
            XdgOutputEvent::LogicalSize { width, height },
        ).outputs[id].logical_pos == (-50i32, y) && view.after_xdg_output_event(
            id,
            XdgOutputEvent::LogicalSize { width, height },
        ).outputs[id].logical_size == (100i32, height),
{
}

/// A set of outputs has one extent.
pub proof fn extent_is_unique(view: ClientView, first: (i32, i32), second: (i32, i32))
    requires
        view.has_extent(first),
        view.has_extent(second),
    ensures
        first == second,
{
    if first.0 != second.0 {
        if first.0 != 0 {
            let id = choose|id: u32| #[trigger]
                view.outputs.contains_key(id) && view.outputs[id].far_corner().0 == first.0;
            assert(view.outputs[id].far_corner().0 <= second.0);
        }
        if second.0 != 0 {
            let id = choose|id: u32| #[trigger]
                view.outputs.contains_key(id) && view.outputs[id].far_corner().0 == second.0;
            assert(view.outputs[id].far_corner().0 <= first.0);
        }
    }
    if first.1 != second.1 {
        if first.1 != 0 {
            let id = choose|id: u32| #[trigger]
                view.outputs.contains_key(id) && view.outputs[id].far_corner().1 == first.1;
            assert(view.outputs[id].far_corner().1 <= second.1);
        }
        if second.1 != 0 {
            let id = choose|id: u32| #[trigger]
                view.outputs.contains_key(id) && view.outputs[id].far_corner().1 == second.1;
            assert(view.outputs[id].far_corner().1 <= first.1);
        }
    }
}

/// The greater of two values.
pub open spec fn max_of(a: int, b: int) -> int {
    if a >= b {
        a
    } else {
        b
    }
}

/// Where exactly two outputs are tracked and their far edges fit in 32 bits,
/// the extent is the far corner of the union of their logical rectangles
/// with the origin.
pub proof fn extent_of_two_outputs(view: ClientView, a: u32, b: u32, extent: (i32, i32))
    requires
        view.outputs.dom() == set![a, b],
        view.has_extent(extent),
        i32::MIN <= view.outputs[a].logical_pos.0 + view.outputs[a].logical_size.0 <= i32::MAX,
        i32::MIN <= view.outputs[a].logical_pos.1 + view.outputs[a].logical_size.1 <= i32::MAX,
        i32::MIN <= view.outputs[b].logical_pos.0 + view.outputs[b].logical_size.0 <= i32::MAX,
        i32::MIN <= view.outputs[b].logical_pos.1 + view.outputs[b].logical_size.1 <= i32::MAX,
    ensures
        extent.0 == max_of(
            0,
            max_of(
                view.outputs[a].logical_pos.0 + view.outputs[a].logical_size.0,
                view.outputs[b].logical_pos.0 + view.outputs[b].logical_size.0,
            ),
        ),
        extent.1 == max_of(
            0,
            max_of(
                view.outputs[a].logical_pos.1 + view.outputs[a].logical_size.1,
                view.outputs[b].logical_pos.1 + view.outputs[b].logical_size.1,
            ),
        ),
{
    assert(view.outputs.contains_key(a));
    assert(view.outputs.contains_key(b));
    assert(forall|id: u32| #[trigger] view.outputs.contains_key(id) ==> id == a || id == b);
}

/// After a refresh pass the registry tracks exactly the trackable output
/// globals of the list: an output that the pass has not observed is pruned,
/// whatever stamp it carried, and every output carries the stamp of the
/// pass.
pub proof fn refresh_tracks_the_globals(view: ClientView, globals: Seq<Global>, now: u64, id: u32)
    ensures
        view.refreshed(globals, now).outputs.contains_key(id) <==> observed_in(globals, id),
        observed_in(globals, id) ==> view.refreshed(globals, now).outputs[id].updated == now,
        observed_in(globals, id) && !view.outputs.contains_key(id) ==> view.refreshed(
            globals,
            now,
        ).outputs[id] == WlxOutput::fresh(id, view.default_output_name, now),
        view.refreshed(globals, now).dirty == view.dirty,
{
}

} // verus!
