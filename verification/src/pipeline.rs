//! One generation run: which file to write next, what to record before it is
//! written, and what to delete when the run is cancelled or fails.
//!
//! The run never touches the disk. It hands out one [`Step`] at a time; the
//! caller writes the file and comes back with [`GenerationRun::proceed`], or
//! with [`GenerationRun::fail`] if the file could not be written.
//!
//! Each step is one unit of work: one raster file, or one image embedded in
//! the container. Before each, the run takes one reading of the cancellation
//! flag. [`GenerationRun::proceed_given`] says what follows from a reading;
//! [`GenerationRun::proceed`] takes the reading and hands it on.

use crate::container::{
    addable, all_addable, ico_file, image_fits, refusal, ContainerEncoder, ContainerEntry, Image,
};
use crate::error::{failure, processing_failure, ErrorKind, FavisError, FavisErrorView};
use crate::img::{can_resample, rgba_len, PixelBuffer};
use crate::text::{append, append_str, chars_of, decimal, decimal_chars, string_of};
use crate::tracker::{texts, FileTracker, RunPhase};
use std::sync::atomic::AtomicBool;
use std::sync::Arc;
use vstd::prelude::*;
use vstd::string::StringExecFns;

verus! {

/// Name of the raster file of the given size: `favicon-{N}x{N}.png`.
pub open spec fn png_name(size: u32) -> Seq<char> {
    "favicon-"@ + decimal(size as nat) + "x"@ + decimal(size as nat) + ".png"@
}

/// Name of the container file.
pub open spec fn ico_name() -> Seq<char> {
    "favicon.ico"@
}

/// The files of a run, in the order in which they are written: one raster
/// file per PNG size, then the container if it has any size.
pub open spec fn unit_names(pngs: Seq<u32>, icos: Seq<u32>) -> Seq<Seq<char>> {
    let names = pngs.map_values(|size: u32| png_name(size));
    if icos.len() > 0 {
        names.push(ico_name())
    } else {
        names
    }
}

/// Name of the raster file of the given size: `favicon-{N}x{N}.png`.
pub fn png_file_name(size: u32) -> (name: String)
    ensures
        name@ == png_name(size),
{
    let digits = decimal_chars(size);
    let mut text = chars_of("favicon-");
    append(&mut text, &digits);
    append_str(&mut text, "x");
    append(&mut text, &digits);
    append_str(&mut text, ".png");
    string_of(&text)
}

/// Name of the container file: `favicon.ico`.
pub fn ico_file_name() -> (name: String)
    ensures
        name@ == ico_name(),
{
    String::from_str("favicon.ico")
}

/// What the caller has to do next.
#[derive(Debug)]
pub enum Step {
    /// Encode `pixels` as PNG and write them to the file `name` in the
    /// output directory. The name is already recorded for cleanup.
    WritePng { name: String, pixels: PixelBuffer },
    /// An image of `size` pixels was embedded in the container, and more are
    /// to follow: nothing is to be written yet.
    Embedded { size: u32 },
    /// Write `bytes` to the file `name` in the output directory. The name is
    /// already recorded for cleanup.
    WriteIco { name: String, bytes: Vec<u8> },
    /// Every file is written: the run is complete and its outputs are kept.
    Finished,
    /// The run is over without success. The files named in `remove`, all
    /// that the run had recorded, are to be deleted.
    Failed { error: FavisError, remove: Vec<String> },
}

/// How a write that the run asked for went wrong.
#[derive(Debug, Clone, Copy, PartialEq, Eq, Structural)]
pub enum WriteFailure {
    /// The file could not be created.
    Create,
    /// The file was created, but its content could not be encoded or
    /// written.
    Write,
}

/// The error for a write that failed on the file `name`.
pub open spec fn write_failure(name: Seq<char>, container: bool, how: WriteFailure)
    -> FavisErrorView {
    let what = match how {
        WriteFailure::Create => if container {
            "Cannot create ICO file: "@ + name
        } else {
            "Cannot create PNG file: "@ + name
        },
        WriteFailure::Write => if container {
            "Cannot write ICO file data"@
        } else {
            "Cannot encode PNG image"@
        },
    };
    failure(
        ErrorKind::WriteError,
        "Can't write to: "@ + what,
        "Make sure the output directory exists and you have write permissions."@,
    )
}

/// The error of a run that was cancelled.
pub open spec fn cancellation() -> FavisErrorView {
    failure(
        ErrorKind::UserCancelled,
        "Operation cancelled by user"@,
        "All partial files have been cleaned up automatically."@,
    )
}

/// The error of a run whose source cannot be resampled to `size` pixels.
pub open spec fn resample_failure(size: u32) -> FavisErrorView {
    processing_failure(
        "Processing hiccup: Cannot resample the source image to "@ + decimal(size as nat) + "x"@
            + decimal(size as nat),
    )
}

/// The error for a container file that cannot be written.
pub open spec fn container_write_failure() -> FavisErrorView {
    failure(
        ErrorKind::WriteError,
        "Can't write to: Cannot write ICO file data"@,
        "Make sure the output directory exists and you have write permissions."@,
    )
}

/// Whether `images` are square images of exactly the given sizes, in order.
pub open spec fn images_sized(images: Seq<Image>, sizes: Seq<u32>) -> bool {
    images.len() == sizes.len() && forall|i: int|
        0 <= i < sizes.len() ==> (#[trigger] images[i]).0 == sizes[i] && image_fits(images[i])
}

/// One run over a decoded source: the PNG sizes and the container sizes to
/// produce, how far the run has come, and the files recorded so far.
pub struct GenerationRun {
    source: PixelBuffer,
    png_sizes: Vec<u32>,
    ico_sizes: Vec<u32>,
    next_png: usize,
    next_ico: usize,
    container: ContainerEncoder,
    container_done: bool,
    tracker: FileTracker,
}

/// Whether the run ended in `step` with the error `e`: it rolled back and
/// handed out for deletion every file it had recorded.
pub open spec fn fails_with(
    pre: GenerationRun,
    post: GenerationRun,
    step: Step,
    e: FavisErrorView,
) -> bool {
    &&& step matches Step::Failed { error, remove }
    &&& error@ == e
    &&& texts(remove@) == pre.pending()
    &&& post.phase() == RunPhase::RolledBack
    &&& post.handed() == pre.handed()
    &&& post.pending() == Seq::<Seq<char>>::empty()
}

/// Whether `step` hands out the file `name` for writing: the name is
/// recorded, and one more file is handed out.
pub open spec fn hands_out(pre: GenerationRun, post: GenerationRun, name: Seq<char>) -> bool {
    &&& post.phase() == RunPhase::Active
    &&& post.handed() == pre.handed() + 1
    &&& post.pending() == pre.pending().push(name)
}

/// The step for the next raster file of a run that is not cancelled: the
/// source resampled to the next PNG size, under that size's file name; or a
/// failure if the source cannot be resampled to it. Pixels of a source that
/// already has the size are the source's.
pub open spec fn png_step(pre: GenerationRun, post: GenerationRun, step: Step) -> bool {
    let size = pre.pngs()[pre.handed() as int];
    if !can_resample(pre.source_width(), pre.source_height(), size) {
        fails_with(pre, post, step, resample_failure(size))
    } else {
        &&& step matches Step::WritePng { name, pixels }
        &&& name@ == png_name(size)
        &&& pixels.width() == size
        &&& pixels.height() == size
        &&& pre.source_width() == size && pre.source_height() == size ==> pixels.samples()
            == pre.source_samples()
        &&& hands_out(pre, post, name@)
        &&& post.embedded() == pre.embedded()
    }
}

/// The step that embeds `image` in the container of a run: a failure if the
/// container refuses it; else, if more images are to follow, only the
/// embedding; else the container file, or a failure if it cannot be written.
pub open spec fn embed_step(pre: GenerationRun, post: GenerationRun, step: Step, image: Image)
    -> bool {
    let held = pre.embedded();
    if !addable(held, image) {
        fails_with(pre, post, step, refusal(held, image))
    } else if held.len() + 1 < pre.icos().len() {
        &&& step matches Step::Embedded { size }
        &&& size == image.0
        &&& post.phase() == RunPhase::Active
        &&& post.handed() == pre.handed()
        &&& post.pending() == pre.pending()
        &&& post.embedded() == held.push(image)
    } else {
        match ico_file(held.push(image)) {
            Some(file) => {
                &&& step matches Step::WriteIco { name, bytes }
                &&& name@ == ico_name()
                &&& bytes@ == file
                &&& hands_out(pre, post, name@)
                &&& post.embedded() == held.push(image)
            },
            None => fails_with(pre, post, step, container_write_failure()),
        }
    }
}

/// The step for the next image of the container of a run that is not
/// cancelled: a failure if the source cannot be resampled to the next
/// container size; else the embedding of the source resampled to it. Samples
/// of a source that already has the size are the source's.
pub open spec fn container_step(pre: GenerationRun, post: GenerationRun, step: Step) -> bool {
    let size = pre.icos()[pre.embedded().len() as int];
    if !can_resample(pre.source_width(), pre.source_height(), size) {
        fails_with(pre, post, step, resample_failure(size))
    } else {
        exists|payload: Seq<u8>|
            {
                &&& payload.len() == rgba_len(size, size)
                &&& pre.source_width() == size && pre.source_height() == size ==> payload
                    == pre.source_samples()
                &&& #[trigger] embed_step(pre, post, step, (size, payload))
            }
    }
}

/// What one step does to a run, given the reading of the cancellation flag
/// that the step began with.
///
/// - A run that has handed out all its files commits and is finished,
///   whatever the reading.
/// - Else a reading that shows a cancellation ends the run with the
///   cancellation error, and every recorded file is handed out for deletion.
/// - Else the run does its next unit of work: the next raster file, or,
///   when all raster files are handed out, the next image of the container.
pub open spec fn steps_to(pre: GenerationRun, cancelled: bool, post: GenerationRun, step: Step)
    -> bool {
    &&& post.pngs() == pre.pngs()
    &&& post.icos() == pre.icos()
    &&& post.source_width() == pre.source_width()
    &&& post.source_height() == pre.source_height()
    &&& post.source_samples() == pre.source_samples()
    &&& post.flag() == pre.flag()
    &&& if pre.handed() >= pre.names().len() {
        &&& step is Finished
        &&& post.phase() == RunPhase::Committed
        &&& post.handed() == pre.handed()
        &&& post.pending() == Seq::<Seq<char>>::empty()
    } else if cancelled {
        fails_with(pre, post, step, cancellation())
    } else if pre.handed() < pre.pngs().len() {
        png_step(pre, post, step)
    } else {
        container_step(pre, post, step)
    }
}

/// A step that an uncancelled run takes from one state, it takes from every
/// state that shows the same.
proof fn lemma_same_start(a: GenerationRun, b: GenerationRun, post: GenerationRun, step: Step)
    requires
        steps_to(a, false, post, step),
        a.pngs() == b.pngs(),
        a.icos() == b.icos(),
        a.source_width() == b.source_width(),
        a.source_height() == b.source_height(),
        a.source_samples() == b.source_samples(),
        a.flag() == b.flag(),
        a.handed() == b.handed(),
        a.pending() == b.pending(),
        a.embedded() == b.embedded(),
    ensures
        steps_to(b, false, post, step),
{
    if a.handed() >= a.names().len() {
    } else if a.handed() < a.pngs().len() {
    } else {
        let size = a.icos()[a.embedded().len() as int];
        if can_resample(a.source_width(), a.source_height(), size) {
            let payload = choose|payload: Seq<u8>|
                {
                    &&& payload.len() == rgba_len(size, size)
                    &&& a.source_width() == size && a.source_height() == size ==> payload
                        == a.source_samples()
                    &&& #[trigger] embed_step(a, post, step, (size, payload))
                };
            assert(embed_step(b, post, step, (size, payload)));
        }
    }
}

impl GenerationRun {
    /// The PNG sizes of the run, in the order in which they are produced.
    pub closed spec fn pngs(&self) -> Seq<u32> {
        self.png_sizes@
    }

    /// The sizes embedded in the container, in order; empty if the run
    /// produces no container.
    pub closed spec fn icos(&self) -> Seq<u32> {
        self.ico_sizes@
    }

    /// Width of the source image.
    pub closed spec fn source_width(&self) -> u32 {
        self.source.width()
    }

    /// Height of the source image.
    pub closed spec fn source_height(&self) -> u32 {
        self.source.height()
    }

    /// The RGBA8 samples of the source image.
    pub closed spec fn source_samples(&self) -> Seq<u8> {
        self.source.samples()
    }

    /// Number of files handed out for writing so far.
    pub closed spec fn handed(&self) -> nat {
        if self.container_done {
            (self.next_png + 1) as nat
        } else {
            self.next_png as nat
        }
    }

    /// The images embedded in the container so far, in order.
    pub closed spec fn embedded(&self) -> Seq<Image> {
        self.container.images()
    }

    /// Where the run stands.
    pub closed spec fn spec_phase(&self) -> RunPhase {
        self.tracker.phase()
    }

    /// The files recorded so far, oldest first.
    pub closed spec fn pending(&self) -> Seq<Seq<char>> {
        self.tracker.pending()
    }

    /// The shared flag by which the run is cancelled.
    pub closed spec fn flag(&self) -> Arc<AtomicBool> {
        self.tracker.flag()
    }

    /// The files of the run, in the order in which they are written.
    pub open spec fn names(&self) -> Seq<Seq<char>> {
        unit_names(self.pngs(), self.icos())
    }

    /// Validity of the run's state: no more files are handed out than the
    /// run has; while the run is active exactly the files handed out are
    /// recorded, and the container holds one image for each of its first
    /// sizes, begun only after the last raster file and handed out as soon
    /// as it holds them all.
    pub closed spec fn wf(&self) -> bool {
        &&& self.next_png <= self.png_sizes@.len()
        &&& self.container_done ==> self.next_png == self.png_sizes@.len() && self.ico_sizes@.len()
            > 0
        &&& self.tracker.phase() == RunPhase::Active ==> {
            &&& self.tracker.pending() == self.names().take(self.handed() as int)
            &&& self.next_ico <= self.ico_sizes@.len()
            &&& self.next_ico == self.container.images().len()
            &&& images_sized(self.container.images(), self.ico_sizes@.take(self.next_ico as int))
            &&& all_addable(self.container.images())
            &&& self.next_ico > 0 ==> self.next_png == self.png_sizes@.len()
            &&& self.container_done <==> self.next_ico == self.ico_sizes@.len()
                && self.ico_sizes@.len() > 0
        }
        &&& self.tracker.phase() != RunPhase::Active ==> self.tracker.pending() == Seq::<
            Seq<char>,
        >::empty()
    }

    /// Where the run stands.
    #[verifier::when_used_as_spec(spec_phase)]
    pub fn phase(&self) -> (p: RunPhase)
        ensures
            p == self.spec_phase(),
    {
        self.tracker.phase()
    }

    /// The files recorded so far, oldest first.
    pub fn recorded(&self) -> (f: &Vec<String>)
        ensures
            texts(f@) == self.pending(),
    {
        self.tracker.files()
    }

    fn abandon(&mut self, error: FavisError) -> (step: Step)
        requires
            old(self).phase() == RunPhase::Active,
            old(self).next_png <= old(self).png_sizes@.len(),
            old(self).container_done ==> old(self).next_png == old(self).png_sizes@.len() && old(
                self,
            ).ico_sizes@.len() > 0,
        ensures
            final(self).wf(),
            final(self).pngs() == old(self).pngs(),
            final(self).icos() == old(self).icos(),
            final(self).source_width() == old(self).source_width(),
            final(self).source_height() == old(self).source_height(),
            final(self).source_samples() == old(self).source_samples(),
            final(self).flag() == old(self).flag(),
            final(self).embedded() == old(self).embedded(),
            fails_with(*old(self), *final(self), step, error@),
    {
        let remove = self.tracker.rollback();
        Step::Failed { error, remove }
    }

    fn unsized_error(size: u32) -> (e: FavisError)
        ensures
            e@ == resample_failure(size),
    {
        let digits = decimal_chars(size);
        let mut text = chars_of("Cannot resample the source image to ");
        append(&mut text, &digits);
        append_str(&mut text, "x");
        append(&mut text, &digits);
        let details = string_of(&text);
        let e = FavisError::processing_error(details.as_str());
        proof {
            reveal_strlit("Cannot resample the source image to ");
            reveal_strlit("Processing hiccup: Cannot resample the source image to ");
            reveal_strlit("Processing hiccup: ");
            assert("Processing hiccup: "@ + "Cannot resample the source image to "@
                =~= "Processing hiccup: Cannot resample the source image to "@);
            assert("Processing hiccup: "@ + details@
                =~= "Processing hiccup: Cannot resample the source image to "@ + decimal(
                size as nat,
            ) + "x"@ + decimal(size as nat));
        }
        e
    }

    /// Does the next raster file of a run that is not cancelled.
    fn next_png_step(&mut self) -> (step: Step)
        requires
            old(self).wf(),
            old(self).phase() == RunPhase::Active,
            old(self).handed() < old(self).pngs().len(),
        ensures
            final(self).wf(),
            steps_to(*old(self), false, *final(self), step),
    {
        let ghost names = self.names();
        let ghost before = self.handed();
        assert(self.next_png < self.png_sizes.len());
        let size = self.png_sizes[self.next_png];
        if !self.source.resizable_to(size) {
            return self.abandon(Self::unsized_error(size));
        }
        let pixels = self.source.resize_square(size);
        let name = png_file_name(size);
        self.tracker.track(name.clone());
        self.next_png = self.next_png + 1;
        proof {
            assert(names[before as int] == png_name(size));
            names.lemma_take_succ_push(before as int);
        }
        Step::WritePng { name, pixels }
    }

    /// Embeds the next image in the container of a run that is not
    /// cancelled, and hands the container out once it holds them all.
    fn next_container_step(&mut self) -> (step: Step)
        requires
            old(self).wf(),
            old(self).phase() == RunPhase::Active,
            old(self).pngs().len() <= old(self).handed() < old(self).names().len(),
        ensures
            final(self).wf(),
            steps_to(*old(self), false, *final(self), step),
    {
        let ghost names = self.names();
        let ghost before = self.handed();
        let ghost held = self.embedded();
        let size = self.ico_sizes[self.next_ico];
        if !self.source.resizable_to(size) {
            return self.abandon(Self::unsized_error(size));
        }
        let pixels = self.source.resize_square(size);
        let entry = ContainerEntry { size, payload: pixels.into_data() };
        let ghost image = entry@;
        let mut container = ContainerEncoder::new();
        std::mem::swap(&mut container, &mut self.container);
        match container.add(&entry) {
            Err(e) => {
                let step = self.abandon(e);
                assert(embed_step(*old(self), *self, step, image));
                step
            },
            Ok(grown) => {
                self.container = grown;
                self.next_ico = self.next_ico + 1;
                proof {
                    let images = held.push(image);
                    let sizes = self.ico_sizes@.take(self.next_ico as int);
                    assert(sizes == self.ico_sizes@.take(self.next_ico - 1).push(size));
                    assert forall|j: int| 0 <= j < sizes.len() implies (#[trigger] images[j]).0
                        == sizes[j] && image_fits(images[j]) by {
                        if j < held.len() {
                            assert(images[j] == held[j]);
                        }
                    }
                    assert forall|j: int| 0 <= j < images.len() implies addable(
                        images.take(j),
                        #[trigger] images[j],
                    ) by {
                        if j < held.len() {
                            assert(images.take(j) == held.take(j));
                            assert(images[j] == held[j]);
                        } else {
                            assert(images.take(j) == held);
                        }
                    }
                }
                if self.next_ico < self.ico_sizes.len() {
                    let step = Step::Embedded { size };
                    assert(embed_step(*old(self), *self, step, image));
                    step
                } else {
                    match self.container.finish() {
                        Ok(bytes) => {
                            let name = ico_file_name();
                            self.tracker.track(name.clone());
                            self.container_done = true;
                            proof {
                                assert(names[before as int] == ico_name());
                                names.lemma_take_succ_push(before as int);
                            }
                            let step = Step::WriteIco { name, bytes };
                            assert(embed_step(*old(self), *self, step, image));
                            step
                        },
                        Err(e) => {
                            let step = self.abandon(e);
                            assert(embed_step(*old(self), *self, step, image));
                            step
                        },
                    }
                }
            },
        }
    }

    /// Does one step of the run, given the reading of the cancellation flag
    /// that the step begins with.
    ///
    /// Once every file is handed out, the run commits and the step is
    /// `Finished`, whatever the reading. Before that, a reading that shows a
    /// cancellation rolls the run back, and the step is `Failed` with the
    /// cancellation error and every recorded file to delete. Otherwise the
    /// run does its next unit of work: it resamples the source to the next
    /// size and hands out the raster file, or embeds the image in the
    /// container and hands the container out once it is complete. A size
    /// that cannot be resampled, an image that the container refuses, or a
    /// container that cannot be written rolls the run back too.
    pub fn proceed_given(&mut self, cancelled: bool) -> (step: Step)
        requires
            old(self).wf(),
            old(self).phase() == RunPhase::Active,
        ensures
            final(self).wf(),
            steps_to(*old(self), cancelled, *final(self), step),
    {
        let raster = self.next_png < self.png_sizes.len();
        let container = !raster && !self.container_done && self.ico_sizes.len() > 0;
        proof {
            self.lemma_names_len();
        }
        if !raster && !container {
            self.tracker.commit();
            return Step::Finished;
        }
        match self.tracker.observe(cancelled) {
            Some(remove) => {
                return Step::Failed { error: FavisError::user_cancelled(), remove };
            },
            None => {},
        }
        let ghost checked = *self;
        let step = if raster {
            self.next_png_step()
        } else {
            self.next_container_step()
        };
        proof {
            lemma_same_start(checked, *old(self), *self, step);
        }
        step
    }

    /// Hands out the next step of a run whose last write, if any, went
    /// well: reads the cancellation flag once and does the step that
    /// [`GenerationRun::proceed_given`] states for that reading.
    pub fn proceed(&mut self) -> (step: Step)
        requires
            old(self).wf(),
            old(self).phase() == RunPhase::Active,
        ensures
            final(self).wf(),
            exists|cancelled: bool| #[trigger] steps_to(*old(self), cancelled, *final(self), step),
    {
        let cancelled = self.tracker.is_cancelled();
        self.proceed_given(cancelled)
    }

    /// Ends a run whose last write failed: the run rolls back, and the step
    /// is `Failed` with a write error that names the file.
    pub fn fail(&mut self, how: WriteFailure) -> (step: Step)
        requires
            old(self).wf(),
            old(self).phase() == RunPhase::Active,
            old(self).handed() >= 1,
        ensures
            final(self).wf(),
            final(self).pngs() == old(self).pngs(),
            final(self).icos() == old(self).icos(),
            final(self).source_width() == old(self).source_width(),
            final(self).source_height() == old(self).source_height(),
            final(self).source_samples() == old(self).source_samples(),
            final(self).flag() == old(self).flag(),
            fails_with(*old(self), *final(self), step, last_write_failure(*old(self), how)),
    {
        let container = self.container_done;
        let name = if container {
            ico_file_name()
        } else {
            png_file_name(self.png_sizes[self.next_png - 1])
        };
        let what = match how {
            WriteFailure::Create => if container {
                String::from_str("Cannot create ICO file: ").concat(name.as_str())
            } else {
                String::from_str("Cannot create PNG file: ").concat(name.as_str())
            },
            WriteFailure::Write => if container {
                String::from_str("Cannot write ICO file data")
            } else {
                String::from_str("Cannot encode PNG image")
            },
        };
        let error = FavisError::write_error(what.as_str());
        self.abandon(error)
    }

    /// A run has one file per PNG size, and one more if its container has
    /// any size.
    pub proof fn lemma_names_len(&self)
        ensures
            self.names().len() == self.pngs().len() + if self.icos().len() > 0 {
                1int
            } else {
                0int
            },
    {
    }

    /// In a valid run, no more files are handed out than the run has; while
    /// the run is active exactly the files handed out so far are recorded,
    /// and once it is over nothing is.
    pub proof fn lemma_recorded_names(&self)
        requires
            self.wf(),
        ensures
            self.handed() <= self.names().len(),
            self.phase() == RunPhase::Active ==> self.pending() == self.names().take(
                self.handed() as int,
            ),
            self.phase() != RunPhase::Active ==> self.pending() == Seq::<Seq<char>>::empty(),
    {
    }
}

/// The error for the failed write of the file that the run handed out last.
pub open spec fn last_write_failure(pre: GenerationRun, how: WriteFailure) -> FavisErrorView {
    write_failure(pre.names()[pre.handed() - 1], pre.handed() > pre.pngs().len(), how)
}

/// Whether the caller reported that its last write failed: the run rolled
/// back with a write error and handed out every recorded file for deletion.
pub open spec fn write_fails(pre: GenerationRun, post: GenerationRun, step: Step) -> bool {
    &&& pre.handed() >= 1
    &&& post.pngs() == pre.pngs()
    &&& post.icos() == pre.icos()
    &&& exists|how: WriteFailure|
        fails_with(pre, post, step, #[trigger] last_write_failure(pre, how))
}

/// The file that a step hands out for writing, if it hands one out.
pub open spec fn written_name(step: Step) -> Option<Seq<char>> {
    match step {
        Step::WritePng { name, pixels } => Some(name@),
        Step::WriteIco { name, bytes } => Some(name@),
        _ => None,
    }
}

/// Whether one of the first `k` steps handed out the file `name` for
/// writing.
pub open spec fn was_written(steps: Seq<Step>, k: int, name: Seq<char>) -> bool {
    exists|j: int| 0 <= j < k && written_name(#[trigger] steps[j]) == Some(name)
}

/// Whether a run unfolds as told: it starts with nothing handed out, and
/// from each state, which is valid and active, it takes the next step,
/// either by [`GenerationRun::proceed_given`] on the reading of that step or
/// by [`GenerationRun::fail`].
pub open spec fn unfolds(states: Seq<GenerationRun>, readings: Seq<bool>, steps: Seq<Step>)
    -> bool {
    &&& states.len() == steps.len() + 1
    &&& readings.len() == steps.len()
    &&& states[0].handed() == 0
    &&& forall|k: int| 0 <= k < states.len() ==> (#[trigger] states[k]).wf()
    &&& forall|k: int|
        0 <= k < steps.len() ==> states[k].phase() == RunPhase::Active && (steps_to(
            states[k],
            readings[k],
            states[k + 1],
            #[trigger] steps[k],
        ) || write_fails(states[k], states[k + 1], steps[k]))
}

/// Along a run, the sizes stay what they were, and every file handed out so
/// far was handed out by a step of its own.
proof fn lemma_unfolding(
    states: Seq<GenerationRun>,
    readings: Seq<bool>,
    steps: Seq<Step>,
    k: int,
)
    requires
        unfolds(states, readings, steps),
        0 <= k <= steps.len(),
    ensures
        states[k].pngs() == states[0].pngs(),
        states[k].icos() == states[0].icos(),
        states[k].handed() <= states[0].names().len(),
        forall|i: int|
            0 <= i < states[k].handed() ==> was_written(steps, k, #[trigger] states[0].names()[i]),
    decreases k,
{
    if k > 0 {
        lemma_unfolding(states, readings, steps, k - 1);
        let pre = states[k - 1];
        let post = states[k];
        let step = steps[k - 1];
        let names = states[0].names();
        pre.lemma_recorded_names();
        post.lemma_recorded_names();
        assert(steps_to(pre, readings[k - 1], post, step) || write_fails(pre, post, step));
        assert forall|i: int| 0 <= i < post.handed() implies was_written(
            steps,
            k,
            #[trigger] names[i],
        ) by {
            if i < pre.handed() {
                assert(was_written(steps, k - 1, names[i]));
                let j = choose|j: int|
                    0 <= j < k - 1 && written_name(#[trigger] steps[j]) == Some(names[i]);
                assert(0 <= j < k && written_name(steps[j]) == Some(names[i]));
            } else {
                lemma_written(pre, readings[k - 1], post, step);
                assert(written_name(steps[k - 1]) == Some(names[i]));
            }
        }
    }
}

/// A step that raises the number of files handed out hands out the next
/// file of the run.
proof fn lemma_written(pre: GenerationRun, cancelled: bool, post: GenerationRun, step: Step)
    requires
        pre.wf(),
        post.wf(),
        pre.phase() == RunPhase::Active,
        steps_to(pre, cancelled, post, step) || write_fails(pre, post, step),
        post.handed() > pre.handed(),
    ensures
        post.handed() == pre.handed() + 1,
        pre.handed() < pre.names().len(),
        written_name(step) == Some(pre.names()[pre.handed() as int]),
{
    pre.lemma_recorded_names();
    post.lemma_recorded_names();
    pre.lemma_names_len();
    let names = pre.names();
    let at = pre.handed() as int;
    if steps_to(pre, cancelled, post, step) {
        assert(post.names() == names);
        if pre.handed() >= names.len() || cancelled {
        } else if pre.handed() < pre.pngs().len() {
            let name = written_name(step)->0;
            assert(post.pending() == pre.pending().push(name));
            assert(post.pending()[at] == name);
            assert(names.take(at + 1)[at] == names[at]);
        } else {
            let size = pre.icos()[pre.embedded().len() as int];
            if can_resample(pre.source_width(), pre.source_height(), size) {
                let payload = choose|payload: Seq<u8>|
                    {
                        &&& payload.len() == rgba_len(size, size)
                        &&& pre.source_width() == size && pre.source_height() == size ==> payload
                            == pre.source_samples()
                        &&& #[trigger] embed_step(pre, post, step, (size, payload))
                    };
                let name = written_name(step)->0;
                assert(post.pending() == pre.pending().push(name));
                assert(post.pending()[at] == name);
                assert(names.take(at + 1)[at] == names[at]);
            }
        }
    }
}

/// What a run leaves behind, however it unfolds.
///
/// - A step that fails, for a cancellation or for any other reason, is the
///   last step of the run, and hands out for deletion every file that was
///   handed out for writing: no partial output is left.
/// - A reading that shows a cancellation while a file is still to come is
///   such a failure, with the cancellation error.
/// - A run finishes only as its last step, after every file of the run was
///   handed out for writing by a step of its own; no step before it failed,
///   so nothing was handed out for deletion: every output is kept.
pub proof fn lemma_run_keeps_all_or_nothing(
    states: Seq<GenerationRun>,
    readings: Seq<bool>,
    steps: Seq<Step>,
)
    requires
        unfolds(states, readings, steps),
    ensures
        forall|k: int|
            0 <= k < steps.len() && (#[trigger] steps[k]) is Failed ==> k == steps.len() - 1
                && texts(steps[k]->remove@) == states[0].names().take(states[k].handed() as int),
        forall|k: int|
            0 <= k < steps.len() && readings[k] && states[k].handed() < states[0].names().len()
                ==> (#[trigger] steps[k]) is Failed && (steps[k]->error@ == cancellation()
                || write_fails(states[k], states[k + 1], steps[k])),
        forall|k: int|
            0 <= k < steps.len() && (#[trigger] steps[k]) is Finished ==> {
                &&& k == steps.len() - 1
                &&& states[k].handed() == states[0].names().len()
                &&& states[k].pending() == states[0].names()
                &&& forall|j: int| 0 <= j < k ==> !((#[trigger] steps[j]) is Failed)
                &&& forall|i: int|
                    0 <= i < states[0].names().len() ==> was_written(
                        steps,
                        k,
                        #[trigger] states[0].names()[i],
                    )
            },
{
    let names = states[0].names();
    assert forall|k: int| 0 <= k < steps.len() implies {
        &&& states[k].names() == names
        &&& states[k].pending() == names.take(states[k].handed() as int)
        &&& (#[trigger] steps[k]) is Failed ==> states[k + 1].phase() == RunPhase::RolledBack
            && texts(steps[k]->remove@) == states[k].pending()
        &&& steps[k] is Finished ==> states[k + 1].phase() == RunPhase::Committed
            && states[k].handed() >= names.len()
        &&& readings[k] && states[k].handed() < names.len() ==> steps[k] is Failed && (
        steps[k]->error@ == cancellation() || write_fails(states[k], states[k + 1], steps[k]))
    } by {
        lemma_unfolding(states, readings, steps, k);
        states[k].lemma_recorded_names();
        lemma_step_kinds(states[k], readings[k], states[k + 1], steps[k]);
    }
    assert forall|k: int| 0 <= k < steps.len() && ((#[trigger] steps[k]) is Failed
        || steps[k] is Finished) implies k == steps.len() - 1 by {
        if k < steps.len() - 1 {
            let next = steps[k + 1];
            assert(next is Failed || !(next is Failed));
            assert(states[k + 1].phase() == RunPhase::Active);
        }
    }
    assert forall|k: int| 0 <= k < steps.len() && (#[trigger] steps[k]) is Finished implies {
        &&& states[k].handed() == names.len()
        &&& states[k].pending() == names
        &&& forall|j: int| 0 <= j < k ==> !((#[trigger] steps[j]) is Failed)
        &&& forall|i: int| 0 <= i < names.len() ==> was_written(steps, k, #[trigger] names[i])
    } by {
        lemma_unfolding(states, readings, steps, k);
        assert(names.take(names.len() as int) == names);
    }
}

/// What the kind of a step says of the state it leaves: a failure leaves
/// the run rolled back with every recorded file handed out, a finish leaves
/// it committed, and a set reading with a file to come is a failure.
proof fn lemma_step_kinds(pre: GenerationRun, cancelled: bool, post: GenerationRun, step: Step)
    requires
        pre.wf(),
        pre.phase() == RunPhase::Active,
        steps_to(pre, cancelled, post, step) || write_fails(pre, post, step),
    ensures
        step is Failed ==> post.phase() == RunPhase::RolledBack && texts(step->remove@)
            == pre.pending(),
        step is Finished ==> post.phase() == RunPhase::Committed && pre.handed()
            >= pre.names().len(),
        cancelled && pre.handed() < pre.names().len() ==> step is Failed && (step->error@
            == cancellation() || write_fails(pre, post, step)),
{
    pre.lemma_names_len();
    if steps_to(pre, cancelled, post, step) {
        if pre.handed() >= pre.names().len() || cancelled {
        } else if pre.handed() < pre.pngs().len() {
        } else {
            let size = pre.icos()[pre.embedded().len() as int];
            if can_resample(pre.source_width(), pre.source_height(), size) {
                let payload = choose|payload: Seq<u8>|
                    {
                        &&& payload.len() == rgba_len(size, size)
                        &&& pre.source_width() == size && pre.source_height() == size ==> payload
                            == pre.source_samples()
                        &&& #[trigger] embed_step(pre, post, step, (size, payload))
                    };
                assert(embed_step(pre, post, step, (size, payload)));
            }
        }
    } else {
        let how = choose|how: WriteFailure|
            fails_with(pre, post, step, #[trigger] last_write_failure(pre, how));
    }
}

/// Starts a run over a decoded source. Nothing is resampled or handed out
/// yet: the work is done step by step, by [`GenerationRun::proceed`].
///
/// * `png_sizes` - List of square sizes (in px) to generate PNGs.
/// * `ico_sizes` - List of sizes to include in the ICO; if empty, no ICO is generated.
/// * `cancelled` - Shared cancellation flag for graceful interruption.
pub fn process(
    source: PixelBuffer,
    png_sizes: Vec<u32>,
    ico_sizes: Vec<u32>,
    cancelled: Arc<AtomicBool>,
) -> (run: GenerationRun)
    ensures
        run.wf(),
        run.phase() == RunPhase::Active,
        run.handed() == 0,
        run.pending() == Seq::<Seq<char>>::empty(),
        run.embedded() == Seq::<Image>::empty(),
        run.pngs() == png_sizes@,
        run.icos() == ico_sizes@,
        run.source_width() == source.width(),
        run.source_height() == source.height(),
        run.source_samples() == source.samples(),
        run.flag() == cancelled,
{
    let run = GenerationRun {
        source,
        png_sizes,
        ico_sizes,
        next_png: 0,
        next_ico: 0,
        container: ContainerEncoder::new(),
        container_done: false,
        tracker: FileTracker::new_with_cancellation(cancelled),
    };
    assert(run.names().take(0) =~= Seq::<Seq<char>>::empty());
    assert(run.ico_sizes@.take(0) =~= Seq::<u32>::empty());
    run
}

} // verus!
