//! What holds of image decoding as a whole.

use vstd::prelude::*;

use crate::graphics::kitty::decode::{
    direct_bytes, format_image, payload_plan, png_file_image, raw_image, rgb_image, rgba_of_rgb,
    unpadded, PlanView, MAX_IMAGE_HEIGHT, MAX_IMAGE_WIDTH,
};
use crate::graphics::kitty::error::ErrorView;
use crate::graphics::kitty::file::{
    file_expects, file_step, FileActionView, FileEvent, FilePhase, FileTarget,
};
use crate::graphics::kitty::paths::{within, ResolvedPath};
use crate::graphics::kitty::shm::{
    shm_expects, shm_step, ShmActionView, ShmEvent, ShmPhaseView, ShmTarget,
};
use crate::graphics::kitty_parser::{Format, KittyCommand};
use crate::graphics::{MAX_GRAPHIC_HEIGHT, MAX_GRAPHIC_WIDTH};

verus! {

proof fn lemma_unpadded_concat(a: Seq<u8>, b: Seq<u8>)
    ensures
        unpadded(a + b) == unpadded(a) + unpadded(b),
    decreases b.len(),
{
    if b.len() == 0 {
        assert(a + b =~= a);
    } else {
        lemma_unpadded_concat(a, b.drop_last());
        assert((a + b).drop_last() =~= a + b.drop_last());
        assert(unpadded(a + b) =~= unpadded(a) + unpadded(b));
    }
}

proof fn lemma_padding_vanishes(padding: Seq<u8>)
    requires
        forall|i: int| 0 <= i < padding.len() ==> padding[i] == 0x3d,
    ensures
        unpadded(padding) == Seq::<u8>::empty(),
    decreases padding.len(),
{
    if padding.len() > 0 {
        lemma_padding_vanishes(padding.drop_last());
    }
}

/// Padding at any place of an inline payload makes no difference.
pub proof fn law_padding_is_ignored(payload: Seq<u8>, padding: Seq<u8>, at: int)
    requires
        0 <= at <= payload.len(),
        forall|i: int| 0 <= i < padding.len() ==> padding[i] == 0x3d,
    ensures
        direct_bytes(payload.take(at) + padding + payload.skip(at)) == direct_bytes(payload),
{
    let (front, back) = (payload.take(at), payload.skip(at));
    lemma_unpadded_concat(front + padding, back);
    lemma_unpadded_concat(front, padding);
    lemma_padding_vanishes(padding);
    lemma_unpadded_concat(front, back);
    assert(front + back =~= payload);
    assert(unpadded(front + padding + back) =~= unpadded(payload));
}

/// Raw pixels make up an image if and only if there is a size within the limits, and there are as
/// many bytes as the size asks for, or more by at most those of one row.
pub proof fn law_raw_images(data: Seq<u8>, w: nat, h: nat)
    ensures
        raw_image(data, w, h, 4) is Ok <==> {
            &&& 1 <= w <= MAX_IMAGE_WIDTH
            &&& 1 <= h <= MAX_IMAGE_HEIGHT
            &&& w * h * 4 <= data.len() <= w * h * 4 + w * 4
        },
        rgb_image(data, w, h) is Ok <==> {
            &&& 1 <= w <= MAX_IMAGE_WIDTH
            &&& 1 <= h <= MAX_IMAGE_HEIGHT
            &&& w * h * 3 <= data.len() <= w * h * 3 + w * 3
        },
{
}

/// Extra bytes behind raw pixels, up to those of one row, make no difference.
pub proof fn law_extra_bytes_are_dropped(data: Seq<u8>, extra: Seq<u8>, w: nat, h: nat)
    ensures
        data.len() == w * h * 4 && extra.len() <= w * 4 ==> raw_image(data + extra, w, h, 4)
            == raw_image(data, w, h, 4),
        data.len() == w * h * 3 && extra.len() <= w * 3 ==> rgb_image(data + extra, w, h)
            == rgb_image(data, w, h),
{
    assert((data + extra).take(data.len() as int) =~= data);
    assert(data.take(data.len() as int) =~= data);
}

/// An image of raw pixels has the size that the command gives, and four bytes for each pixel.
pub proof fn law_raw_images_are_complete(cmd: KittyCommand, data: Seq<u8>)
    requires
        cmd.format != Format::Png,
    ensures
        format_image(cmd, data) matches Ok(image) ==> {
            &&& image.width == cmd.width
            &&& image.height == cmd.height
            &&& image.pixels.len() == 4 * image.width * image.height
        },
{
    let (w, h) = (cmd.width as nat, cmd.height as nat);
    if cmd.format == Format::Rgb {
        assert(w * h * 3 / 3 == w * h) by (nonlinear_arith);
    }
    assert(w * h * 4 == 4 * w * h) by (nonlinear_arith);
    assert(w * h >= 0) by (nonlinear_arith);
}

/// The image of a PNG file is not larger than a graphic can be.
pub proof fn law_png_images_are_limited(data: Seq<u8>)
    ensures
        png_file_image(data) matches Ok(image) ==> {
            &&& image.width <= MAX_GRAPHIC_WIDTH
            &&& image.height <= MAX_GRAPHIC_HEIGHT
        },
{
}

/// Conversion keeps the color of each pixel and makes it opaque.
pub proof fn law_rgb_conversion(rgb: Seq<u8>, pixel: int)
    requires
        0 <= pixel < rgb.len() / 3,
    ensures
        rgba_of_rgb(rgb).len() == rgb.len() / 3 * 4,
        rgba_of_rgb(rgb)[4 * pixel] == rgb[3 * pixel],
        rgba_of_rgb(rgb)[4 * pixel + 1] == rgb[3 * pixel + 1],
        rgba_of_rgb(rgb)[4 * pixel + 2] == rgb[3 * pixel + 2],
        rgba_of_rgb(rgb)[4 * pixel + 3] == 255,
{
}

/// Of a chunked transfer the bytes are taken as they are, whatever the medium.
pub proof fn law_decoded_payload_is_kept(
    cmd: KittyCommand,
    raw_payload: Seq<u8>,
    shared_memory: bool,
)
    requires
        cmd.pre_decoded,
    ensures
        payload_plan(cmd, raw_payload, shared_memory) == Ok::<PlanView, ErrorView>(
            PlanView::Bytes(raw_payload),
        ),
{
}

// Files.

/// Where the reading of a file stands when `events` have happened, and what to do next. The path
/// was absolute or was not.
pub open spec fn file_run(target: FileTarget, absolute: bool, events: Seq<FileEvent>) -> (
    FilePhase,
    FileActionView,
)
    decreases events.len(),
{
    if events.len() == 0 {
        target.start(absolute)
    } else {
        file_step(target, file_run(target, absolute, events.drop_last()).0, events.last())
    }
}

/// Whether each event came out of the action that was due.
pub open spec fn file_run_valid(target: FileTarget, absolute: bool, events: Seq<FileEvent>) -> bool
    decreases events.len(),
{
    events.len() == 0 || {
        &&& file_run_valid(target, absolute, events.drop_last())
        &&& file_expects(
            target,
            file_run(target, absolute, events.drop_last()).0,
            events.last(),
        )
    }
}

/// Whether the path was resolved at first, to one that lies in a directory for temporary files.
pub open spec fn confined(events: Seq<FileEvent>) -> bool {
    &&& events.len() >= 2
    &&& events[0] matches FileEvent::Resolved { path, .. }
    &&& events[1] matches FileEvent::TempDirs(dirs)
    &&& within(path@, dirs@)
}

/// Whether `action` touches the contents of the file, or hands them over.
pub open spec fn touches_file(action: FileActionView) -> bool {
    match action {
        FileActionView::Canonicalize { .. } => false,
        FileActionView::ListTempDirs => false,
        FileActionView::Stat => false,
        FileActionView::Finish(result) => result is Ok,
        _ => true,
    }
}

/// Whether `action` is done to the file.
pub open spec fn about_file(action: FileActionView) -> bool {
    match action {
        FileActionView::Canonicalize { .. } => false,
        FileActionView::ListTempDirs => false,
        FileActionView::Finish(_) => false,
        _ => true,
    }
}

/// Whether the contents of the file came out of an action.
pub open spec fn was_read(data: Seq<u8>, events: Seq<FileEvent>) -> bool {
    exists|i: int|
        0 <= i < events.len() && (#[trigger] events[i] matches FileEvent::Data(bytes) && bytes@
            == data)
}

/// Whether the file was found to be a regular one.
pub open spec fn found_regular(events: Seq<FileEvent>) -> bool {
    exists|i: int|
        0 <= i < events.len() && (#[trigger] events[i] matches FileEvent::Stat { is_file, .. }
            && is_file)
}

/// Whether there are as many bytes as were asked for.
pub open spec fn size_kept(target: FileTarget, data: Seq<u8>) -> bool {
    target.size > 0 ==> data.len() == target.size
}

/// What is known about the place of a file that is to be opened.
spec fn place_explained(
    target: FileTarget,
    resolved: Option<ResolvedPath>,
    events: Seq<FileEvent>,
) -> bool {
    match resolved {
        Some(path) => target.is_temp && confined(events) && events[0]->Resolved_path == path,
        None => !target.is_temp,
    }
}

/// What a phase says about what has happened.
spec fn phase_explained(target: FileTarget, phase: FilePhase, events: Seq<FileEvent>) -> bool {
    match phase {
        FilePhase::Start => false,
        FilePhase::Resolving => target.is_temp && events.len() == 0,
        FilePhase::Vetting { path, .. } => {
            &&& target.is_temp
            &&& events.len() == 1
            &&& events[0] matches FileEvent::Resolved { path: found, .. }
            &&& found == path
        },
        FilePhase::Stating { resolved } => place_explained(target, resolved, events),
        FilePhase::Opening { resolved } => {
            place_explained(target, resolved, events) && found_regular(events)
        },
        FilePhase::Seeking { resolved } => {
            place_explained(target, resolved, events) && found_regular(events)
        },
        FilePhase::Reading { resolved } => {
            place_explained(target, resolved, events) && found_regular(events)
        },
        FilePhase::Sweeping { path, data } => {
            &&& target.removable()
            &&& place_explained(target, Some(path), events)
            &&& found_regular(events)
            &&& was_read(data@, events)
            &&& size_kept(target, data@)
        },
        FilePhase::Removing { path, data } => {
            &&& target.removable()
            &&& place_explained(target, Some(path), events)
            &&& found_regular(events)
            &&& was_read(data@, events)
            &&& size_kept(target, data@)
        },
        FilePhase::Finished => true,
    }
}

/// How many events can be left when a phase is reached.
spec fn file_events_left(phase: FilePhase) -> nat {
    match phase {
        FilePhase::Start => 9,
        FilePhase::Resolving => 8,
        FilePhase::Vetting { .. } => 7,
        FilePhase::Stating { .. } => 6,
        FilePhase::Opening { .. } => 5,
        FilePhase::Seeking { .. } => 4,
        FilePhase::Reading { .. } => 3,
        FilePhase::Sweeping { .. } => 2,
        FilePhase::Removing { .. } => 1,
        FilePhase::Finished => 0,
    }
}

proof fn lemma_file_run(target: FileTarget, absolute: bool, events: Seq<FileEvent>)
    ensures
        ({
            let (phase, action) = file_run(target, absolute, events);
            &&& phase_explained(target, phase, events)
            &&& touches_file(action) ==> {
                &&& target.is_temp ==> confined(events)
                &&& found_regular(events)
            }
            &&& about_file(action) ==> place_explained(target, phase.place(), events)
            &&& action matches FileActionView::Finish(Ok(data)) ==> {
                &&& was_read(data, events)
                &&& size_kept(target, data)
            }
            &&& action is Finish <==> phase is Finished
            &&& action is Remove ==> {
                &&& target.removable()
                &&& events.last() matches FileEvent::TempDirs(dirs)
                &&& within(events[0]->Resolved_path@, dirs@)
            }
            &&& !target.is_temp ==> phase.place() is None
            &&& !target.is_temp ==> !(action is ListTempDirs) && !(action is Canonicalize)
        }),
    decreases events.len(),
{
    if events.len() > 0 {
        let before = events.drop_last();
        lemma_file_run(target, absolute, before);
        let phase = file_run(target, absolute, before).0;
        let last = events.len() - 1;
        assert(events[last] == events.last());
        assert(confined(before) ==> confined(events));
        assert(found_regular(before) ==> found_regular(events)) by {
            if found_regular(before) {
                let i = choose|i: int|
                    0 <= i < before.len() && (#[trigger] before[i] matches FileEvent::Stat {
                        is_file,
                        ..
                    } && is_file);
                assert(events[i] == before[i]);
            }
        }
        assert forall|data: Seq<u8>| was_read(data, before) implies was_read(data, events) by {
            let i = choose|i: int|
                0 <= i < before.len() && (#[trigger] before[i] matches FileEvent::Data(bytes)
                    && bytes@ == data);
            assert(events[i] == before[i]);
        }
    }
}

proof fn lemma_file_events_left(target: FileTarget, absolute: bool, events: Seq<FileEvent>)
    requires
        file_run_valid(target, absolute, events),
    ensures
        events.len() + file_events_left(file_run(target, absolute, events).0) <= 8,
    decreases events.len(),
{
    if events.len() > 0 {
        lemma_file_events_left(target, absolute, events.drop_last());
    }
}

/// A temporary file is looked up, opened, read, removed or handed over only if its path resolved to
/// one that lies in a directory for temporary files, and that path is the place of the file that is
/// looked up, opened, read or removed.
pub proof fn law_temp_files_are_confined(target: FileTarget, absolute: bool, events: Seq<FileEvent>)
    requires
        target.is_temp,
        about_file(file_run(target, absolute, events).1) || touches_file(
            file_run(target, absolute, events).1,
        ),
    ensures
        confined(events),
        about_file(file_run(target, absolute, events).1) ==> file_run(
            target,
            absolute,
            events,
        ).0.place() == Some(events[0]->Resolved_path),
{
    lemma_file_run(target, absolute, events);
}

/// Only a regular file is opened, read, removed or handed over.
pub proof fn law_only_regular_files_are_read(
    target: FileTarget,
    absolute: bool,
    events: Seq<FileEvent>,
)
    requires
        touches_file(file_run(target, absolute, events).1),
    ensures
        found_regular(events),
{
    lemma_file_run(target, absolute, events);
}

/// Reading a file gives the bytes that were read, as many as were asked for, or an error.
pub proof fn law_file_contents_are_handed_over(
    target: FileTarget,
    absolute: bool,
    events: Seq<FileEvent>,
)
    ensures
        file_run(target, absolute, events).1 matches FileActionView::Finish(Ok(data)) ==> {
            &&& was_read(data, events)
            &&& target.size > 0 ==> data.len() == target.size
        },
{
    lemma_file_run(target, absolute, events);
}

/// A file is removed only if it is a temporary one whose path contains `"tty-graphics-protocol"`,
/// and its place lies in a directory for temporary files by what was listed right before.
pub proof fn law_removal_is_conditional(target: FileTarget, absolute: bool, events: Seq<FileEvent>)
    requires
        file_run(target, absolute, events).1 is Remove,
    ensures
        target.removable(),
        file_run(target, absolute, events).0.place() matches Some(path) && (
        events.last() matches FileEvent::TempDirs(dirs) && within(path@, dirs@)),
{
    lemma_file_run(target, absolute, events);
}

/// A file that need not be a temporary one is never removed, and its path is taken as it is.
pub proof fn law_plain_files_are_kept(target: FileTarget, absolute: bool, events: Seq<FileEvent>)
    requires
        !target.is_temp,
    ensures
        !(file_run(target, absolute, events).1 is Remove),
        !(file_run(target, absolute, events).1 is Canonicalize),
        file_run(target, absolute, events).0.place() is None,
{
    lemma_file_run(target, absolute, events);
}

/// Reading a file comes to an end, if each event came out of the action that was due.
pub proof fn law_file_reading_ends(target: FileTarget, absolute: bool, events: Seq<FileEvent>)
    requires
        file_run_valid(target, absolute, events),
    ensures
        events.len() <= 8,
        events.len() == 8 ==> file_run(target, absolute, events).1 is Finish,
{
    lemma_file_events_left(target, absolute, events);
    lemma_file_run(target, absolute, events);
}

// Shared memory.

/// Whether the object is open.
pub open spec fn shm_open(phase: ShmPhaseView) -> bool {
    match phase {
        ShmPhaseView::Sizing => true,
        ShmPhaseView::Mapping { .. } => true,
        ShmPhaseView::ClosingMapped { .. } => true,
        ShmPhaseView::Closing { .. } => true,
        _ => false,
    }
}

/// Whether the object is mapped.
pub open spec fn shm_mapped(phase: ShmPhaseView) -> bool {
    match phase {
        ShmPhaseView::ClosingMapped { .. } => true,
        ShmPhaseView::Copying { .. } => true,
        ShmPhaseView::Unmapping { .. } => true,
        _ => false,
    }
}

/// The phases tell whether the object is open and mapped, and nothing is left open or mapped at
/// the end.
pub proof fn law_shared_memory_is_released(target: ShmTarget, phase: ShmPhaseView, event: ShmEvent)
    requires
        shm_expects(target, phase, event),
    ensures
        ({
            let (next, action) = shm_step(target, phase, event);
            &&& shm_open(next) == (event is Opened || shm_open(phase) && !(event is Closed))
            &&& shm_mapped(next) == (event is Mapped || shm_mapped(phase) && !(event is Unmapped))
            &&& action is Close ==> shm_open(next)
            &&& action is Unmap ==> shm_mapped(next)
            &&& action is Copy ==> shm_mapped(next)
            &&& action is Finish ==> !shm_open(next) && !shm_mapped(next)
        }),
{
}

/// Where the reading of an object stands when `events` have happened, and what to do next.
pub open spec fn shm_run(target: ShmTarget, events: Seq<ShmEvent>) -> (ShmPhaseView, ShmActionView)
    decreases events.len(),
{
    if events.len() == 0 {
        (ShmPhaseView::Opening, ShmActionView::Open(target.name))
    } else {
        shm_step(target, shm_run(target, events.drop_last()).0, events.last())
    }
}

/// Whether each event came out of the action that was due.
pub open spec fn shm_run_valid(target: ShmTarget, events: Seq<ShmEvent>) -> bool
    decreases events.len(),
{
    events.len() == 0 || {
        &&& shm_run_valid(target, events.drop_last())
        &&& shm_expects(target, shm_run(target, events.drop_last()).0, events.last())
    }
}

/// Whether the size of the object was found out.
pub open spec fn was_sized(events: Seq<ShmEvent>) -> bool {
    exists|i: int| 0 <= i < events.len() && #[trigger] events[i] is Sized
}

/// Whether the bytes were copied from the object.
pub open spec fn was_copied(data: Seq<u8>, events: Seq<ShmEvent>) -> bool {
    exists|i: int|
        0 <= i < events.len() && (#[trigger] events[i] matches ShmEvent::Copied(bytes) && bytes@
            == data)
}

/// Whether the object was found to have `total` bytes.
pub open spec fn sized_as(total: nat, events: Seq<ShmEvent>) -> bool {
    exists|i: int|
        0 <= i < events.len() && (#[trigger] events[i] matches ShmEvent::Sized(size) && size
            == total)
}

/// Whether there are as many bytes as were asked for of an object that has them.
pub open spec fn range_kept(target: ShmTarget, data: Seq<u8>, events: Seq<ShmEvent>) -> bool {
    exists|total: nat| #[trigger]
        sized_as(total, events) && target.fits(total) && data.len() == target.len(total)
}

/// What a phase says about what has happened.
spec fn shm_phase_explained(
    target: ShmTarget,
    phase: ShmPhaseView,
    events: Seq<ShmEvent>,
) -> bool {
    match phase {
        ShmPhaseView::Start => false,
        ShmPhaseView::Opening => events.len() == 0,
        ShmPhaseView::Sizing => !was_sized(events),
        ShmPhaseView::Mapping { total } => sized_as(total, events),
        ShmPhaseView::ClosingMapped { total } => sized_as(total, events),
        ShmPhaseView::Copying { total } => sized_as(total, events) && target.fits(total),
        ShmPhaseView::Unmapping { outcome } => {
            outcome matches Ok(data) ==> was_copied(data, events) && range_kept(
                target,
                data,
                events,
            )
        },
        ShmPhaseView::Closing { unlink, outcome } => {
            &&& outcome is Err
            &&& was_sized(events) ==> unlink
        },
        ShmPhaseView::Unlinking { outcome } => {
            outcome matches Ok(data) ==> was_copied(data, events) && range_kept(
                target,
                data,
                events,
            )
        },
        ShmPhaseView::Finished => true,
    }
}

/// How many events can be left when a phase is reached.
spec fn shm_events_left(phase: ShmPhaseView) -> nat {
    match phase {
        ShmPhaseView::Start => 8,
        ShmPhaseView::Opening => 7,
        ShmPhaseView::Sizing => 6,
        ShmPhaseView::Mapping { .. } => 5,
        ShmPhaseView::ClosingMapped { .. } => 4,
        ShmPhaseView::Copying { .. } => 3,
        ShmPhaseView::Unmapping { .. } => 2,
        ShmPhaseView::Closing { .. } => 2,
        ShmPhaseView::Unlinking { .. } => 1,
        ShmPhaseView::Finished => 0,
    }
}

proof fn lemma_was_sized(events: Seq<ShmEvent>)
    requires
        events.len() > 0,
    ensures
        was_sized(events) ==> was_sized(events.drop_last()) || events.last() is Sized,
{
    if was_sized(events) {
        let i = choose|i: int| 0 <= i < events.len() && #[trigger] events[i] is Sized;
        assert(i < events.len() - 1 ==> events.drop_last()[i] == events[i]);
    }
}

proof fn lemma_shm_run(target: ShmTarget, events: Seq<ShmEvent>)
    ensures
        ({
            let (phase, action) = shm_run(target, events);
            &&& shm_phase_explained(target, phase, events)
            &&& action matches ShmActionView::Finish(Ok(data)) ==> {
                &&& was_copied(data, events)
                &&& range_kept(target, data, events)
            }
            &&& action is Finish <==> phase is Finished
        }),
    decreases events.len(),
{
    if events.len() > 0 {
        let before = events.drop_last();
        lemma_shm_run(target, before);
        let last = events.len() - 1;
        assert(events[last] == events.last());
        lemma_was_sized(events);
        assert forall|total: nat| #[trigger] sized_as(total, before) implies sized_as(
            total,
            events,
        ) by {
            let i = choose|i: int|
                0 <= i < before.len() && (#[trigger] before[i] matches ShmEvent::Sized(size)
                    && size == total);
            assert(events[i] == before[i]);
        }
        assert forall|data: Seq<u8>| was_copied(data, before) implies was_copied(data, events) by {
            let i = choose|i: int|
                0 <= i < before.len() && (#[trigger] before[i] matches ShmEvent::Copied(bytes)
                    && bytes@ == data);
            assert(events[i] == before[i]);
        }
    }
}

proof fn lemma_shm_valid_run(target: ShmTarget, events: Seq<ShmEvent>)
    requires
        shm_run_valid(target, events),
    ensures
        events.len() + shm_events_left(shm_run(target, events).0) <= 7,
        shm_run(target, events).0 is Finished && was_sized(events) ==> events.last() is Unlinked,
    decreases events.len(),
{
    if events.len() > 0 {
        lemma_shm_valid_run(target, events.drop_last());
        lemma_shm_run(target, events.drop_last());
        lemma_was_sized(events);
    }
}

/// Once the size of an object has been found out, reading ends only after the object has been
/// unlinked, if each event came out of the action that was due.
pub proof fn law_shared_memory_is_unlinked(target: ShmTarget, events: Seq<ShmEvent>)
    requires
        shm_run_valid(target, events),
        was_sized(events),
        shm_run(target, events).1 is Finish,
    ensures
        events.last() is Unlinked,
{
    lemma_shm_valid_run(target, events);
    lemma_shm_run(target, events);
}

/// Reading an object gives the bytes that were copied from it, as many as were asked for, or an
/// error. Without a given size these are all bytes of the object from the offset on.
pub proof fn law_shared_memory_contents_are_handed_over(target: ShmTarget, events: Seq<ShmEvent>)
    ensures
        shm_run(target, events).1 matches ShmActionView::Finish(Ok(data)) ==> {
            &&& was_copied(data, events)
            &&& range_kept(target, data, events)
            &&& target.size > 0 ==> data.len() == target.size
        },
{
    lemma_shm_run(target, events);
}

/// Reading an object comes to an end, if each event came out of the action that was due.
pub proof fn law_shared_memory_reading_ends(target: ShmTarget, events: Seq<ShmEvent>)
    requires
        shm_run_valid(target, events),
    ensures
        events.len() <= 7,
        events.len() == 7 ==> shm_run(target, events).1 is Finish,
{
    lemma_shm_valid_run(target, events);
    lemma_shm_run(target, events);
}

/// Bytes are copied only from within the object.
pub proof fn law_copies_stay_within_the_object(
    target: ShmTarget,
    phase: ShmPhaseView,
    event: ShmEvent,
)
    ensures
        shm_step(target, phase, event).1 matches ShmActionView::Copy { offset, len } ==> {
            &&& phase matches ShmPhaseView::ClosingMapped { total }
            &&& offset + len <= total
        },
{
}

} // verus!
