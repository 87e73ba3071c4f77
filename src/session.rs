//! The load and run state machines that a front end drives: each input slot
//! goes `NotLoaded -> Loading -> Loaded | Error`, and a run goes
//! `NotStarted -> Processing -> Done | Error`.

use crate::compose::{NormalMapFormat, RoughnessFormat};
use crate::container::OutputFormat;
use crate::preview::{LoadError, ProcessedImage};
use crate::raster::RgbaImage;
use crate::validate::valid_dimensions;
use vstd::prelude::*;

verus! {

/// The message of a slot whose image does not hold four bytes per pixel or
/// breaks a rule of the validator.
pub const MALFORMED_IMAGE: &'static str = "Image data does not match its size";

/// The five source textures.
#[derive(Debug, Clone, Copy, PartialEq, Eq, Structural)]
pub enum InputSlot {
    Albedo,
    AmbientOcclusion,
    Height,
    Normal,
    Roughness,
}

/// Where one slot stands.
#[derive(Debug, Clone)]
pub enum LoadState {
    NotLoaded,
    Loading,
    Loaded,
    Error(String),
}

/// Where the run stands.
#[derive(Debug, Clone)]
pub enum ProcessingState {
    NotStarted,
    Processing,
    Done,
    Error(String),
}

/// One input slot: its state, its image while loaded, and the number of the
/// latest load asked for, so that the result of an earlier one is ignored.
#[derive(Debug)]
pub struct SlotEntry {
    pub state: LoadState,
    pub image: Option<ProcessedImage>,
    pub generation: u64,
}

/// An image that may enter the compositor.
pub open spec fn source_ok(img: RgbaImage) -> bool {
    img.wf() && valid_dimensions(img.width, img.height)
}

impl SlotEntry {
    /// A slot holds an image exactly when it is loaded, and that image is
    /// valid.
    pub open spec fn wf(&self) -> bool {
        &&& (self.state is Loaded <==> self.image is Some)
        &&& (self.image matches Some(p) ==> source_ok(p.original))
    }

    fn empty(generation: u64) -> (r: SlotEntry)
        ensures
            r.state is NotLoaded,
            r.image is None,
            r.generation == generation,
    {
        SlotEntry { state: LoadState::NotLoaded, image: None, generation }
    }
}

/// The number that the next load of a slot gets.
pub open spec fn next_generation(g: u64) -> u64 {
    if g < u64::MAX {
        (g + 1) as u64
    } else {
        0
    }
}

fn bump(g: u64) -> (r: u64)
    ensures
        r == next_generation(g),
{
    if g < u64::MAX {
        g + 1
    } else {
        0
    }
}

/// What a front end keeps to hand a load's result back to the right slot.
#[derive(Debug, Clone, Copy, PartialEq, Eq, Structural)]
pub struct LoadTicket {
    pub slot: InputSlot,
    pub generation: u64,
}

/// Everything a run reads, copied out of the session.
#[derive(Debug)]
pub struct RunJob {
    pub albedo: RgbaImage,
    pub ambient_occlusion: Option<RgbaImage>,
    pub height: Option<RgbaImage>,
    pub normal: RgbaImage,
    pub roughness: Option<RgbaImage>,
    pub normal_format: NormalMapFormat,
    pub roughness_format: RoughnessFormat,
    pub output_format: OutputFormat,
    pub output_directory: String,
}

/// The state of the whole tool: five slots, the run settings and the run.
#[derive(Debug)]
pub struct TerrainSession {
    pub albedo: SlotEntry,
    pub ambient_occlusion: SlotEntry,
    pub height: SlotEntry,
    pub normal: SlotEntry,
    pub roughness: SlotEntry,
    pub output_directory: Option<String>,
    pub normal_format: NormalMapFormat,
    pub roughness_format: RoughnessFormat,
    pub output_format: OutputFormat,
    pub processing: ProcessingState,
}

/// The original of an optional slot's image, as the run copies it.
pub open spec fn original_view(e: SlotEntry) -> Option<Seq<u8>> {
    match e.image {
        Some(p) => Some(p.original.data@),
        None => None,
    }
}

pub open spec fn copied_from(copy: Option<RgbaImage>, e: SlotEntry) -> bool {
    match (copy, e.image) {
        (Some(c), Some(p)) => c.width == p.original.width && c.height == p.original.height
            && c.data@ == p.original.data@,
        (None, None) => true,
        _ => false,
    }
}

fn copy_original(e: &SlotEntry) -> (r: Option<RgbaImage>)
    ensures
        copied_from(r, *e),
{
    match &e.image {
        Some(p) => Some(p.original.duplicate()),
        None => None,
    }
}

impl Default for TerrainSession {
    fn default() -> (r: Self)
        ensures
            r.wf(),
            forall|s: InputSlot|
                (#[trigger] r.slot_spec(s)).state is NotLoaded && r.slot_spec(s).generation == 0,
            r.output_directory is None,
            r.normal_format == NormalMapFormat::OpenGL,
            r.roughness_format == RoughnessFormat::Roughness,
            r.output_format == OutputFormat::Png,
            r.processing is NotStarted,
    {
        TerrainSession::new()
    }
}

impl TerrainSession {
    pub open spec fn slot_spec(&self, which: InputSlot) -> SlotEntry {
        match which {
            InputSlot::Albedo => self.albedo,
            InputSlot::AmbientOcclusion => self.ambient_occlusion,
            InputSlot::Height => self.height,
            InputSlot::Normal => self.normal,
            InputSlot::Roughness => self.roughness,
        }
    }

    pub open spec fn wf(&self) -> bool {
        forall|s: InputSlot| #[trigger] self.slot_spec(s).wf()
    }

    /// The inputs a run needs are there: albedo and normal are loaded and an
    /// output directory is set.
    pub open spec fn required_loaded_spec(&self) -> bool {
        &&& self.albedo.state is Loaded
        &&& self.normal.state is Loaded
        &&& self.output_directory is Some
    }

    /// A run may start: its inputs are there and no run is under way.
    pub open spec fn can_run_spec(&self) -> bool {
        &&& self.required_loaded_spec()
        &&& !(self.processing is Processing)
    }

    /// `self` and `other` agree on everything but slot `which`.
    pub open spec fn same_but(&self, other: &TerrainSession, which: InputSlot) -> bool {
        &&& forall|s: InputSlot| s != which ==> #[trigger] self.slot_spec(s) == other.slot_spec(s)
        &&& self.output_directory == other.output_directory
        &&& self.normal_format == other.normal_format
        &&& self.roughness_format == other.roughness_format
        &&& self.output_format == other.output_format
        &&& self.processing == other.processing
    }

    /// Every slot empty, no output directory, the default settings, no run.
    pub fn new() -> (r: TerrainSession)
        ensures
            r.wf(),
            forall|s: InputSlot|
                (#[trigger] r.slot_spec(s)).state is NotLoaded && r.slot_spec(s).generation == 0,
            r.output_directory is None,
            r.normal_format == NormalMapFormat::OpenGL,
            r.roughness_format == RoughnessFormat::Roughness,
            r.output_format == OutputFormat::Png,
            r.processing is NotStarted,
    {
        TerrainSession {
            albedo: SlotEntry::empty(0),
            ambient_occlusion: SlotEntry::empty(0),
            height: SlotEntry::empty(0),
            normal: SlotEntry::empty(0),
            roughness: SlotEntry::empty(0),
            output_directory: None,
            normal_format: NormalMapFormat::OpenGL,
            roughness_format: RoughnessFormat::Roughness,
            output_format: OutputFormat::Png,
            processing: ProcessingState::NotStarted,
        }
    }

    /// The entry of slot `which`.
    pub fn slot(&self, which: InputSlot) -> (r: &SlotEntry)
        ensures
            *r == self.slot_spec(which),
    {
        match which {
            InputSlot::Albedo => &self.albedo,
            InputSlot::AmbientOcclusion => &self.ambient_occlusion,
            InputSlot::Height => &self.height,
            InputSlot::Normal => &self.normal,
            InputSlot::Roughness => &self.roughness,
        }
    }

    fn put(&mut self, which: InputSlot, entry: SlotEntry)
        ensures
            final(self).slot_spec(which) == entry,
            final(self).same_but(old(self), which),
    {
        match which {
            InputSlot::Albedo => self.albedo = entry,
            InputSlot::AmbientOcclusion => self.ambient_occlusion = entry,
            InputSlot::Height => self.height = entry,
            InputSlot::Normal => self.normal = entry,
            InputSlot::Roughness => self.roughness = entry,
        }
    }

    /// A path was picked for slot `which`: the slot drops its image, waits for
    /// the load, and the returned ticket names this load.
    pub fn begin_load(&mut self, which: InputSlot) -> (r: LoadTicket)
        ensures
            old(self).wf() ==> final(self).wf(),
            final(self).slot_spec(which).state is Loading,
            final(self).slot_spec(which).image is None,
            final(self).slot_spec(which).generation == next_generation(
                old(self).slot_spec(which).generation,
            ),
            r == (LoadTicket { slot: which, generation: final(self).slot_spec(which).generation }),
            final(self).same_but(old(self), which),
    {
        let g = bump(self.slot(which).generation);
        self.put(which, SlotEntry { state: LoadState::Loading, image: None, generation: g });
        LoadTicket { slot: which, generation: g }
    }

    /// The result of the load that `ticket` names. It is applied only where
    /// the slot still waits for that very load; a valid image makes the slot
    /// loaded, anything else makes it fail with the error's message.
    pub fn finish_load(&mut self, ticket: LoadTicket, result: Result<ProcessedImage, LoadError>) -> (applied: bool)
        ensures
            old(self).wf() ==> final(self).wf(),
            applied == (old(self).slot_spec(ticket.slot).state is Loading && ticket.generation
                == old(self).slot_spec(ticket.slot).generation),
            !applied ==> *final(self) == *old(self),
            applied ==> final(self).same_but(old(self), ticket.slot),
            applied ==> final(self).slot_spec(ticket.slot).generation == ticket.generation,
            applied ==> match result {
                Ok(p) => if source_ok(p.original) {
                    final(self).slot_spec(ticket.slot).state is Loaded && final(self).slot_spec(
                        ticket.slot,
                    ).image == Some(p)
                } else {
                    final(self).slot_spec(ticket.slot).state matches LoadState::Error(m) && m@
                        == MALFORMED_IMAGE@ && final(self).slot_spec(ticket.slot).image is None
                },
                Err(e) => final(self).slot_spec(ticket.slot).state matches LoadState::Error(m)
                    && m@ == e.message_spec() && final(self).slot_spec(ticket.slot).image is None,
            },
    {
        let current = self.slot(ticket.slot);
        let waiting = match current.state {
            LoadState::Loading => true,
            _ => false,
        };
        if !waiting || current.generation != ticket.generation {
            return false;
        }
        let entry = match result {
            Ok(p) => {
                if p.original.is_valid_source() {
                    SlotEntry { state: LoadState::Loaded, image: Some(p), generation: ticket.generation }
                } else {
                    SlotEntry {
                        state: LoadState::Error(MALFORMED_IMAGE.to_string()),
                        image: None,
                        generation: ticket.generation,
                    }
                }
            },
            Err(e) => SlotEntry {
                state: LoadState::Error(e.message()),
                image: None,
                generation: ticket.generation,
            },
        };
        self.put(ticket.slot, entry);
        true
    }

    /// Empties slot `which`; a load still under way for it is ignored when it
    /// ends.
    pub fn clear(&mut self, which: InputSlot)
        ensures
            old(self).wf() ==> final(self).wf(),
            final(self).slot_spec(which).state is NotLoaded,
            final(self).slot_spec(which).image is None,
            final(self).slot_spec(which).generation == next_generation(
                old(self).slot_spec(which).generation,
            ),
            final(self).same_but(old(self), which),
    {
        let g = bump(self.slot(which).generation);
        self.put(which, SlotEntry::empty(g));
    }

    /// Whether albedo and normal are loaded and an output directory is set;
    /// the optional slots do not matter.
    pub fn are_required_images_loaded(&self) -> (r: bool)
        ensures
            r == self.required_loaded_spec(),
    {
        let albedo = match self.albedo.state {
            LoadState::Loaded => true,
            _ => false,
        };
        let normal = match self.normal.state {
            LoadState::Loaded => true,
            _ => false,
        };
        albedo && normal && self.output_directory.is_some()
    }

    /// Whether a run may start now.
    pub fn can_run(&self) -> (r: bool)
        ensures
            r == self.can_run_spec(),
    {
        let idle = match self.processing {
            ProcessingState::Processing => false,
            _ => true,
        };
        self.are_required_images_loaded() && idle
    }

    /// Starts a run where one may start: the session is then processing, and
    /// the job holds copies of the loaded originals and the settings.
    pub fn start_run(&mut self) -> (r: Option<RunJob>)
        ensures
            old(self).wf() ==> final(self).wf(),
            old(self).wf() ==> (r is Some <==> old(self).can_run_spec()),
            r is Some ==> old(self).can_run_spec(),
            r is None ==> *final(self) == *old(self),
            r matches Some(job) ==> {
                &&& final(self).processing is Processing
                &&& forall|s: InputSlot| #[trigger] final(self).slot_spec(s) == old(self).slot_spec(s)
                &&& final(self).output_directory == old(self).output_directory
                &&& final(self).normal_format == old(self).normal_format
                &&& final(self).roughness_format == old(self).roughness_format
                &&& final(self).output_format == old(self).output_format
                &&& copied_from(Some(job.albedo), old(self).albedo)
                &&& copied_from(job.ambient_occlusion, old(self).ambient_occlusion)
                &&& copied_from(job.height, old(self).height)
                &&& copied_from(Some(job.normal), old(self).normal)
                &&& copied_from(job.roughness, old(self).roughness)
                &&& old(self).output_directory == Some(job.output_directory)
                &&& job.normal_format == old(self).normal_format
                &&& job.roughness_format == old(self).roughness_format
                &&& job.output_format == old(self).output_format
            },
    {
        if !self.can_run() {
            return None;
        }
        proof {
            if self.wf() {
                assert(self.slot_spec(InputSlot::Albedo).wf());
                assert(self.slot_spec(InputSlot::Normal).wf());
            }
        }
        let albedo = match copy_original(&self.albedo) {
            Some(a) => a,
            None => return None,
        };
        let normal = match copy_original(&self.normal) {
            Some(n) => n,
            None => return None,
        };
        let output_directory = match &self.output_directory {
            Some(d) => d.clone(),
            None => return None,
        };
        let job = RunJob {
            albedo,
            ambient_occlusion: copy_original(&self.ambient_occlusion),
            height: copy_original(&self.height),
            normal,
            roughness: copy_original(&self.roughness),
            normal_format: self.normal_format,
            roughness_format: self.roughness_format,
            output_format: self.output_format,
            output_directory,
        };
        self.processing = ProcessingState::Processing;
        proof {
            assert forall|s: InputSlot| #[trigger] self.slot_spec(s) == old(self).slot_spec(s) by {}
        }
        Some(job)
    }

    /// The outcome of the run under way: done, or failed with its message.
    pub fn finish_run(&mut self, result: Result<(), String>)
        ensures
            old(self).wf() ==> final(self).wf(),
            forall|s: InputSlot| #[trigger] final(self).slot_spec(s) == old(self).slot_spec(s),
            final(self).output_directory == old(self).output_directory,
            final(self).normal_format == old(self).normal_format,
            final(self).roughness_format == old(self).roughness_format,
            final(self).output_format == old(self).output_format,
            match result {
                Ok(()) => final(self).processing is Done,
                Err(m) => final(self).processing == ProcessingState::Error(m),
            },
    {
        self.processing = match result {
            Ok(()) => ProcessingState::Done,
            Err(m) => ProcessingState::Error(m),
        };
        proof {
            assert forall|s: InputSlot| #[trigger] self.slot_spec(s) == old(self).slot_spec(s) by {}
        }
    }
}

/// Run gating: no run can start while albedo or normal is not loaded, while
/// no output directory is set, or while a run is under way.
pub proof fn lemma_run_gating(s: TerrainSession)
    ensures
        !(s.albedo.state is Loaded) ==> !s.can_run_spec(),
        !(s.normal.state is Loaded) ==> !s.can_run_spec(),
        s.output_directory is None ==> !s.can_run_spec(),
        s.processing is Processing ==> !s.can_run_spec(),
{
}

} // verus!
