//! Observer-side state: the panel that folds the progress-event stream into
//! what is shown, and the selection list of candidate files. Rendering and
//! channel plumbing live with the host; everything that decides lives here.

use vstd::prelude::*;

use crate::compression::CompressionProgress;
use crate::compression::CompressionSettings;
use crate::file::ImageFile;

verus! {

/// What the panel currently reports about a run.
#[derive(Clone, Debug)]
pub enum PanelStatus {
    /// No run was dispatched yet.
    Idle,
    /// A run was dispatched and no event has arrived.
    Starting,
    /// The named file, at position `current` of `total`, is being worked on.
    InProgress { current: usize, total: usize, filename: String },
    /// The terminal `Complete` event arrived.
    Completed,
    /// The terminal `Error` event arrived with this message.
    Errored(String),
}

/// The compression panel's state: the settings being edited and the live
/// view of the running batch. Events are folded in one at a time, in stream
/// order, with exhaustive handling of every variant.
pub struct CompressionPanel {
    pub settings: CompressionSettings,
    /// Numerator of the fraction of the batch finished so far.
    pub progress_current: usize,
    /// Denominator of the fraction of the batch finished so far.
    pub progress_total: usize,
    pub is_processing: bool,
    pub status: PanelStatus,
}

impl CompressionPanel {
    /// A fresh panel: default settings, idle, no progress.
    pub fn new() -> (r: Self)
        ensures
            r.settings.is_default(),
            r.settings.is_valid(),
            !r.is_processing,
            r.progress_current == 0,
            r.progress_total == 0,
            r.status is Idle,
    {
        CompressionPanel {
            settings: CompressionSettings::default(),
            progress_current: 0,
            progress_total: 0,
            is_processing: false,
            status: PanelStatus::Idle,
        }
    }

    /// Whether a run may start: at least one file is selected and the
    /// settings pass validation.
    pub fn can_compress(&self, file_count: usize) -> (r: bool)
        ensures
            r == (file_count > 0 && self.settings.is_valid()),
    {
        file_count > 0 && self.settings.validate().is_ok()
    }

    /// Resets the live view when a run is dispatched; the settings are kept
    /// as edited, and the worker receives its own copy of them.
    pub fn start_compression(&mut self)
        ensures
            final(self).settings == old(self).settings,
            final(self).is_processing,
            final(self).progress_current == 0,
            final(self).progress_total == 0,
            final(self).status is Starting,
    {
        self.is_processing = true;
        self.progress_current = 0;
        self.progress_total = 0;
        self.status = PanelStatus::Starting;
    }

    /// Folds one event of the stream into the panel: a `Processing` event
    /// names the file on show, a `Progress` event moves the bar, and either
    /// terminal event ends processing with the matching status.
    pub fn update_progress(&mut self, event: CompressionProgress)
        ensures
            final(self).settings == old(self).settings,
            (event matches CompressionProgress::Processing { current, total, filename } ==> (
            final(self).status == (PanelStatus::InProgress { current, total, filename })
                && final(self).is_processing == old(self).is_processing && final(self).progress_current == old(self).progress_current && final(self).progress_total == old(self).progress_total)),
            (event matches CompressionProgress::Progress { current, total } ==> (final(self).progress_current == current && final(self).progress_total == total && final(self).is_processing == old(self).is_processing && final(self).status == old(self).status)),
            (event is Complete ==> (!final(self).is_processing && final(self).status is Completed
                && final(self).progress_current == old(self).progress_current && final(self).progress_total == old(self).progress_total)),
            (event matches CompressionProgress::Error(m) ==> (!final(self).is_processing && final(self).status == PanelStatus::Errored(m) && final(self).progress_current == old(self).progress_current && final(self).progress_total == old(self).progress_total)),
    {
        match event {
            CompressionProgress::Processing { current, total, filename } => {
                self.status = PanelStatus::InProgress { current, total, filename };
            },
            CompressionProgress::Progress { current, total } => {
                self.progress_current = current;
                self.progress_total = total;
            },
            CompressionProgress::Complete => {
                self.is_processing = false;
                self.status = PanelStatus::Completed;
            },
            CompressionProgress::Error(m) => {
                self.is_processing = false;
                self.status = PanelStatus::Errored(m);
            },
        }
    }
}

/// Sum of the byte sizes of `files`.
pub open spec fn total_size_of(files: Seq<ImageFile>) -> int
    decreases files.len(),
{
    if files.len() == 0 {
        0
    } else {
        total_size_of(files.drop_last()) + files.last().size
    }
}

/// The list of files the user picked, in selection order.
pub struct FileInput {
    pub selected_files: Vec<ImageFile>,
    pub is_loading: bool,
}

impl FileInput {
    /// An empty selection.
    pub fn new() -> (r: Self)
        ensures
            r.selected_files@.len() == 0,
            !r.is_loading,
    {
        FileInput { selected_files: Vec::new(), is_loading: false }
    }

    /// The current selection, in order.
    pub fn get_selected_files(&self) -> (r: &[ImageFile])
        ensures
            r@ == self.selected_files@,
    {
        self.selected_files.as_slice()
    }

    /// Marks that a probe of picked paths is underway.
    pub fn start_loading(&mut self)
        ensures
            final(self).selected_files == old(self).selected_files,
            final(self).is_loading,
    {
        self.is_loading = true;
    }

    /// Replaces the selection with what the probe returned and ends the
    /// loading state; a cancelled picker hands an empty list.
    pub fn set_selected_files(&mut self, files: Vec<ImageFile>)
        ensures
            final(self).selected_files == files,
            !final(self).is_loading,
    {
        self.selected_files = files;
        self.is_loading = false;
    }

    /// Empties the selection.
    pub fn clear_files(&mut self)
        ensures
            final(self).selected_files@.len() == 0,
            final(self).is_loading == old(self).is_loading,
    {
        self.selected_files.clear();
    }

    /// Removes the file at `index`, keeping the order of the rest.
    pub fn remove_file(&mut self, index: usize)
        requires
            index < old(self).selected_files@.len(),
        ensures
            final(self).selected_files@ == old(self).selected_files@.remove(index as int),
            final(self).is_loading == old(self).is_loading,
    {
        self.selected_files.remove(index);
    }

    /// Total byte size of the selection.
    pub fn total_size(&self) -> (r: u128)
        ensures
            r == total_size_of(self.selected_files@),
    {
        let n = self.selected_files.len();
        let mut total: u128 = 0;
        let mut i: usize = 0;
        while i < n
            invariant
                i <= n,
                n == self.selected_files@.len(),
                total == total_size_of(self.selected_files@.subrange(0, i as int)),
                total <= i as int * 0xffff_ffff_ffff_ffff,
            decreases n - i,
        {
            let ghost prefix = self.selected_files@.subrange(0, i as int);
            proof {
                assert(self.selected_files@.subrange(0, i + 1).drop_last() =~= prefix);
                assert(self.selected_files@.subrange(0, i + 1).last()
                    == self.selected_files@[i as int]);
            }
            total = total + (self.selected_files[i].size as u128);
            i = i + 1;
        }
        proof {
            assert(self.selected_files@.subrange(0, n as int) =~= self.selected_files@);
        }
        total
    }
}

} // verus!
