//! What is asked of the system, and what is handed over, when a payload is read.

use vstd::prelude::*;

use crate::graphics::kitty::error::ErrorView;
use crate::graphics::kitty::file::{
    file_step, FileActionView, FileEvent, FilePhase, FileTarget,
};
use crate::graphics::kitty::laws::{file_run, shm_run};
use crate::graphics::kitty::paths::{within, ResolvedPath};
use crate::graphics::kitty::shm::{
    shm_step, ShmActionView, ShmEvent, ShmPhaseView, ShmTarget,
};
use crate::text::{contains, decimal};

verus! {

// Shared memory.

proof fn lemma_shm_push(target: ShmTarget, events: Seq<ShmEvent>, event: ShmEvent)
    ensures
        shm_run(target, events.push(event)) == shm_step(
            target,
            shm_run(target, events).0,
            event,
        ),
{
    assert(events.push(event).drop_last() =~= events);
}

/// Whether the object was opened, found to have `total` bytes, mapped and closed.
pub open spec fn mapped_whole(events: Seq<ShmEvent>, total: nat) -> bool {
    &&& events.len() >= 4
    &&& events[0] is Opened
    &&& events[1] matches ShmEvent::Sized(size)
    &&& size == total
    &&& total > 0
    &&& events[2] is Mapped
    &&& events[3] is Closed
}

/// Where the reading of an object stands, by what has happened.
proof fn lemma_shm_trace(target: ShmTarget, events: Seq<ShmEvent>)
    ensures
        ({
            let (phase, action) = shm_run(target, events);
            &&& action is Open <==> events.len() == 0
            &&& action is Open <==> phase is Opening
            &&& action is Size <==> phase is Sizing
            &&& action is Size ==> events.len() == 1 && events[0] is Opened
            &&& action matches ShmActionView::MapWhole(total) ==> {
                &&& phase matches ShmPhaseView::Mapping { total: size }
                &&& size == total
                &&& events.len() == 2
                &&& events[0] is Opened
                &&& events[1] matches ShmEvent::Sized(size)
                &&& size == total
                &&& total > 0
            }
            &&& action is MapWhole <==> phase is Mapping
            &&& phase matches ShmPhaseView::ClosingMapped { total } ==> {
                &&& action is Close
                &&& events.len() == 3
                &&& events[0] is Opened
                &&& events[1] matches ShmEvent::Sized(size)
                &&& size == total
                &&& total > 0
                &&& events[2] is Mapped
            }
            &&& action is Copy <==> phase is Copying
            &&& phase matches ShmPhaseView::Copying { total } ==> {
                &&& events.len() == 4
                &&& mapped_whole(events, total)
                &&& action == ShmActionView::Copy {
                    offset: target.offset as nat,
                    len: target.len(total),
                }
                &&& target.fits(total)
            }
            &&& action is Unmap <==> phase is Unmapping
            &&& action is Unlink <==> phase is Unlinking
            &&& action is Finish <==> phase is Finished
            &&& action is Close <==> phase is ClosingMapped || phase is Closing
        }),
    decreases events.len(),
{
    if events.len() > 0 {
        lemma_shm_trace(target, events.drop_last());
    }
}

/// The only copy that is asked for starts at the offset of the command, and ends where as many
/// bytes have been copied as the command says, or at the end of the object if it does not say. It
/// is asked for once the object is mapped, and lies within the object.
pub proof fn law_copy_is_what_was_asked_for(
    target: ShmTarget,
    events: Seq<ShmEvent>,
    offset: nat,
    len: nat,
)
    requires
        shm_run(target, events).1 == (ShmActionView::Copy { offset, len }),
    ensures
        events.len() == 4,
        events[0] is Opened,
        events[1] is Sized,
        events[2] is Mapped,
        events[3] is Closed,
        offset == target.offset,
        target.size > 0 ==> len == target.size,
        target.size == 0 ==> offset + len == events[1]->Sized_0,
        offset + len <= events[1]->Sized_0,
{
    lemma_shm_trace(target, events);
}

/// Which bytes of an object are to be read: those from the offset on, as many as the command says,
/// or all.
pub open spec fn requested(object: Seq<u8>, offset: u32, size: u32) -> Seq<u8> {
    object.subrange(
        offset as int,
        if size > 0 {
            offset + size
        } else {
            object.len() as int
        },
    )
}

/// Whether the events tell the truth about an object of these bytes: its size, and the bytes of
/// each copy that was asked for.
pub open spec fn truthful_shm(object: Seq<u8>, target: ShmTarget, events: Seq<ShmEvent>) -> bool {
    forall|i: int|
        0 <= i < events.len() ==> match #[trigger] events[i] {
            ShmEvent::Sized(size) => size == object.len(),
            ShmEvent::Copied(data) => shm_run(target, events.take(i)).1 matches ShmActionView::Copy {
                offset,
                len,
            } ==> offset + len <= object.len() ==> data@ == object.subrange(
                offset as int,
                (offset + len) as int,
            ),
            _ => true,
        }
}

/// What the outcome is when the events tell the truth.
proof fn lemma_shm_contents(object: Seq<u8>, target: ShmTarget, events: Seq<ShmEvent>)
    requires
        truthful_shm(object, target, events),
    ensures
        match shm_run(target, events).0 {
            ShmPhaseView::Unmapping { outcome } => outcome matches Ok(data) ==> {
                &&& data == requested(object, target.offset, target.size)
                &&& target.offset + target.size <= object.len()
                &&& target.offset <= object.len()
            },
            ShmPhaseView::Closing { outcome, .. } => outcome is Err,
            ShmPhaseView::Unlinking { outcome } => outcome matches Ok(data) ==> {
                &&& data == requested(object, target.offset, target.size)
                &&& target.offset + target.size <= object.len()
                &&& target.offset <= object.len()
            },
            ShmPhaseView::Finished => shm_run(target, events).1 matches ShmActionView::Finish(
                Ok(data),
            ) ==> {
                &&& data == requested(object, target.offset, target.size)
                &&& target.offset + target.size <= object.len()
                &&& target.offset <= object.len()
            },
            _ => true,
        },
    decreases events.len(),
{
    if events.len() > 0 {
        let before = events.drop_last();
        assert forall|i: int| 0 <= i < before.len() implies #[trigger] before[i] == events[i]
            && before.take(i) == events.take(i) by {
            assert(before.take(i) =~= events.take(i));
        }
        assert(truthful_shm(object, target, before));
        lemma_shm_contents(object, target, before);
        lemma_shm_trace(target, before);
        let last = events.len() - 1;
        assert(events.take(last) =~= before);
        assert(events[last] == events.last());
        if shm_run(target, before).1 is Copy {
            assert(before[1] == events[1]);
        }
    }
}

/// What is handed over are the bytes of the object from the offset of the command on, as many as
/// the command says, or all.
pub proof fn law_shared_memory_gives_the_requested_bytes(
    object: Seq<u8>,
    target: ShmTarget,
    events: Seq<ShmEvent>,
    data: Seq<u8>,
)
    requires
        truthful_shm(object, target, events),
        shm_run(target, events).1 == ShmActionView::Finish(Ok(data)),
    ensures
        target.offset <= object.len(),
        target.size == 0 ==> data == object.skip(target.offset as int),
        target.size > 0 ==> target.offset + target.size <= object.len() && data == object.subrange(
            target.offset as int,
            target.offset + target.size,
        ),
{
    lemma_shm_contents(object, target, events);
    lemma_shm_trace(target, events);
}

/// An object that holds the bytes is opened by its name, sized, mapped whole, closed, copied from,
/// unmapped and unlinked, and then its bytes are handed over.
pub proof fn law_shared_memory_is_read(
    target: ShmTarget,
    total: usize,
    data: Vec<u8>,
    len: nat,
)
    requires
        total > 0,
        target.size > 0 ==> len == target.size,
        target.size == 0 ==> target.offset + len == total,
        target.offset + len <= total,
        data@.len() == len,
    ensures
        ({
            let all = seq![
                ShmEvent::Opened,
                ShmEvent::Sized(total),
                ShmEvent::Mapped,
                ShmEvent::Closed,
                ShmEvent::Copied(data),
                ShmEvent::Unmapped,
                ShmEvent::Unlinked,
            ];
            &&& shm_run(target, all.take(0)).1 == ShmActionView::Open(target.name)
            &&& shm_run(target, all.take(1)).1 == ShmActionView::Size
            &&& shm_run(target, all.take(2)).1 == ShmActionView::MapWhole(total as nat)
            &&& shm_run(target, all.take(3)).1 == ShmActionView::Close
            &&& shm_run(target, all.take(4)).1 == (ShmActionView::Copy {
                offset: target.offset as nat,
                len,
            })
            &&& shm_run(target, all.take(5)).1 == ShmActionView::Unmap(total as nat)
            &&& shm_run(target, all.take(6)).1 == (ShmActionView::Unlink {
                name: target.name,
                warn: true,
            })
            &&& shm_run(target, all).1 == ShmActionView::Finish(Ok(data@))
        }),
{
    let all = seq![
        ShmEvent::Opened,
        ShmEvent::Sized(total),
        ShmEvent::Mapped,
        ShmEvent::Closed,
        ShmEvent::Copied(data),
        ShmEvent::Unmapped,
        ShmEvent::Unlinked,
    ];
    lemma_shm_takes(target, all);
    assert(all.take(7) =~= all);
}

/// One event after the other.
proof fn lemma_shm_takes(target: ShmTarget, events: Seq<ShmEvent>)
    ensures
        events.take(0).len() == 0,
        forall|k: int|
            0 < k <= events.len() ==> shm_run(target, #[trigger] events.take(k)) == shm_step(
                target,
                shm_run(target, events.take(k - 1)).0,
                events[k - 1],
            ),
{
    assert forall|k: int| 0 < k <= events.len() implies shm_run(target, #[trigger] events.take(k))
        == shm_step(target, shm_run(target, events.take(k - 1)).0, events[k - 1]) by {
        assert(events.take(k) =~= events.take(k - 1).push(events[k - 1]));
        lemma_shm_push(target, events.take(k - 1), events[k - 1]);
    }
}

/// `what`, and then the name of the object in quotes.
pub open spec fn about_object(what: Seq<char>, target: ShmTarget) -> Seq<char> {
    what + "'"@ + target.name + "'"@
}

/// If an object cannot be opened, that is the error, and nothing is left to do.
pub proof fn law_object_cannot_be_opened(target: ShmTarget, error: String)
    ensures
        shm_run(target, seq![ShmEvent::InvalidName { error }]).1 == ShmActionView::Finish(
            Err(ErrorView::IoError("invalid shm name: "@ + error@)),
        ),
        shm_run(target, seq![ShmEvent::Failed { error }]).1 == ShmActionView::Finish(
            Err(ErrorView::IoError(about_object("shm_open "@, target) + ": "@ + error@)),
        ),
{
    let empty = Seq::<ShmEvent>::empty();
    lemma_shm_push(target, empty, ShmEvent::InvalidName { error });
    lemma_shm_push(target, empty, ShmEvent::Failed { error });
}

/// An object whose size cannot be found out is closed, and not unlinked.
pub proof fn law_object_cannot_be_sized(target: ShmTarget, error: String)
    ensures
        ({
            let failed = seq![ShmEvent::Opened, ShmEvent::Failed { error }];
            &&& shm_run(target, failed).1 == ShmActionView::Close
            &&& shm_run(target, failed.push(ShmEvent::Closed)).1 == ShmActionView::Finish(
                Err(ErrorView::IoError(about_object("fstat shm "@, target) + ": "@ + error@)),
            )
        }),
{
    let failed = seq![ShmEvent::Opened, ShmEvent::Failed { error }];
    lemma_shm_takes(target, failed);
    assert(failed.take(2) =~= failed);
    lemma_shm_push(target, failed, ShmEvent::Closed);
}

/// An object without bytes, or one that cannot be mapped, is closed and unlinked.
pub proof fn law_object_cannot_be_mapped(target: ShmTarget, total: usize, error: String)
    ensures
        ({
            let failed = if total == 0 {
                seq![ShmEvent::Opened, ShmEvent::Sized(total)]
            } else {
                seq![ShmEvent::Opened, ShmEvent::Sized(total), ShmEvent::Failed { error }]
            };
            let closed = failed.push(ShmEvent::Closed);
            let message = if total == 0 {
                about_object("shm "@, target) + " has zero size"@
            } else {
                about_object("mmap shm "@, target) + ": "@ + error@
            };
            &&& shm_run(target, failed).1 == ShmActionView::Close
            &&& shm_run(target, closed).1 == (ShmActionView::Unlink {
                name: target.name,
                warn: false,
            })
            &&& shm_run(target, closed.push(ShmEvent::Unlinked)).1 == ShmActionView::Finish(
                Err(ErrorView::IoError(message)),
            )
        }),
{
    let failed = if total == 0 {
        seq![ShmEvent::Opened, ShmEvent::Sized(total)]
    } else {
        seq![ShmEvent::Opened, ShmEvent::Sized(total), ShmEvent::Failed { error }]
    };
    lemma_shm_takes(target, failed);
    assert(failed.take(failed.len() as int) =~= failed);
    assert(failed.take(2).len() == 2);
    lemma_shm_push(target, failed, ShmEvent::Closed);
    lemma_shm_push(target, failed.push(ShmEvent::Closed), ShmEvent::Unlinked);
}

/// Nothing is copied from an object that does not hold all the bytes. It is unmapped and unlinked,
/// and the error tells the numbers.
pub proof fn law_object_is_too_short(target: ShmTarget, total: usize, len: nat)
    requires
        total > 0,
        target.size > 0 ==> len == target.size && target.offset + len > total,
        target.size == 0 ==> len == 0 && target.offset > total,
    ensures
        ({
            let mapped = seq![
                ShmEvent::Opened,
                ShmEvent::Sized(total),
                ShmEvent::Mapped,
                ShmEvent::Closed,
            ];
            let unmapped = mapped.push(ShmEvent::Unmapped);
            &&& shm_run(target, mapped).1 == ShmActionView::Unmap(total as nat)
            &&& shm_run(target, unmapped).1 == (ShmActionView::Unlink {
                name: target.name,
                warn: true,
            })
            &&& shm_run(target, unmapped.push(ShmEvent::Unlinked)).1 == ShmActionView::Finish(
                Err(
                    ErrorView::IoError(
                        about_object("shm "@, target) + ": offset("@ + decimal(
                            target.offset as nat,
                        ) + ") + size("@ + decimal(len) + ") exceeds total("@ + decimal(
                            total as nat,
                        ) + ")"@,
                    ),
                ),
            )
        }),
{
    let mapped = seq![
        ShmEvent::Opened,
        ShmEvent::Sized(total),
        ShmEvent::Mapped,
        ShmEvent::Closed,
    ];
    lemma_shm_takes(target, mapped);
    assert(mapped.take(4) =~= mapped);
    lemma_shm_push(target, mapped, ShmEvent::Unmapped);
    lemma_shm_push(target, mapped.push(ShmEvent::Unmapped), ShmEvent::Unlinked);
}

/// Bytes of another number than was asked for are not handed over, but the object is released all
/// the same.
pub proof fn law_wrong_copies_are_refused(
    target: ShmTarget,
    events: Seq<ShmEvent>,
    offset: nat,
    len: nat,
    data: Vec<u8>,
)
    requires
        shm_run(target, events).1 == (ShmActionView::Copy { offset, len }),
        data@.len() != len,
    ensures
        ({
            let copied = events.push(ShmEvent::Copied(data));
            let unmapped = copied.push(ShmEvent::Unmapped);
            &&& shm_run(target, copied).1 == ShmActionView::Unmap(events[1]->Sized_0 as nat)
            &&& shm_run(target, unmapped).1 == (ShmActionView::Unlink {
                name: target.name,
                warn: true,
            })
            &&& shm_run(target, unmapped.push(ShmEvent::Unlinked)).1 == ShmActionView::Finish(
                Err(ErrorView::IoError("unexpected event"@)),
            )
        }),
{
    lemma_shm_trace(target, events);
    let copied = events.push(ShmEvent::Copied(data));
    lemma_shm_push(target, events, ShmEvent::Copied(data));
    lemma_shm_push(target, copied, ShmEvent::Unmapped);
    lemma_shm_push(target, copied.push(ShmEvent::Unmapped), ShmEvent::Unlinked);
}

/// What cannot come out of an action ends the reading with an error.
pub proof fn law_foreign_shm_events_are_errors(
    target: ShmTarget,
    events: Seq<ShmEvent>,
    event: ShmEvent,
)
    requires
        match shm_run(target, events).1 {
            ShmActionView::Open(_) => {
                !(event is Opened) && !(event is InvalidName) && !(event is Failed)
            },
            ShmActionView::Size => !(event is Sized) && !(event is Failed),
            ShmActionView::MapWhole(_) => !(event is Mapped) && !(event is Failed),
            ShmActionView::Close => !(event is Closed),
            ShmActionView::Copy { .. } => !(event is Copied),
            ShmActionView::Unmap(_) => !(event is Unmapped),
            ShmActionView::Unlink { .. } => !(event is Unlinked),
            ShmActionView::Finish(_) => true,
        },
    ensures
        shm_run(target, events.push(event)).1 == ShmActionView::Finish(
            Err(ErrorView::IoError("unexpected event"@)),
        ),
{
    lemma_shm_trace(target, events);
    lemma_shm_push(target, events, event);
}

// Files.

proof fn lemma_file_push(
    target: FileTarget,
    absolute: bool,
    events: Seq<FileEvent>,
    event: FileEvent,
)
    ensures
        file_run(target, absolute, events.push(event)) == file_step(
            target,
            file_run(target, absolute, events).0,
            event,
        ),
{
    assert(events.push(event).drop_last() =~= events);
}

/// One event after the other.
proof fn lemma_file_takes(target: FileTarget, absolute: bool, events: Seq<FileEvent>)
    ensures
        events.take(0).len() == 0,
        forall|k: int|
            0 < k <= events.len() ==> file_run(target, absolute, #[trigger] events.take(k))
                == file_step(
                target,
                file_run(target, absolute, events.take(k - 1)).0,
                events[k - 1],
            ),
{
    assert forall|k: int| 0 < k <= events.len() implies file_run(
        target,
        absolute,
        #[trigger] events.take(k),
    ) == file_step(target, file_run(target, absolute, events.take(k - 1)).0, events[k - 1]) by {
        assert(events.take(k) =~= events.take(k - 1).push(events[k - 1]));
        lemma_file_push(target, absolute, events.take(k - 1), events[k - 1]);
    }
}

/// The place in the file that reading has come to when `events` have happened: where it was last
/// told to go, or the start.
pub open spec fn place_in_file(target: FileTarget, absolute: bool, events: Seq<FileEvent>) -> nat
    decreases events.len(),
{
    if events.len() == 0 {
        0
    } else {
        let before = events.drop_last();
        match file_run(target, absolute, before).1 {
            FileActionView::Seek(place) if events.last() is Sought => place,
            _ => place_in_file(target, absolute, before),
        }
    }
}

/// Where the reading of a file stands, by what has happened.
proof fn lemma_file_trace(target: FileTarget, absolute: bool, events: Seq<FileEvent>)
    ensures
        ({
            let (phase, action) = file_run(target, absolute, events);
            let place = place_in_file(target, absolute, events);
            &&& action is Canonicalize <==> phase is Resolving
            &&& action is Canonicalize ==> events.len() == 0
            &&& action is ListTempDirs <==> phase is Vetting || phase is Sweeping
            &&& phase matches FilePhase::Vetting { path, shown } ==> {
                events.len() == 1 && events[0] == (FileEvent::Resolved { path, shown })
            }
            &&& phase is Sweeping ==> events.len() >= 5
            &&& action is Stat <==> phase is Stating
            &&& action is Open <==> phase is Opening
            &&& phase is Resolving || phase is Vetting || phase is Stating || phase is Opening
                || phase is Seeking ==> place == 0
            &&& action is Seek <==> phase is Seeking
            &&& action matches FileActionView::Seek(to) ==> to == target.offset && to > 0
            &&& action is ReadExact || action is ReadToEnd <==> phase is Reading
            &&& phase is Reading ==> {
                &&& place == target.offset
                &&& action is ReadToEnd <==> target.size == 0
                &&& action matches FileActionView::ReadExact(n) ==> n == target.size
            }
            &&& action is Remove <==> phase is Removing
            &&& action is Finish <==> phase is Finished
        }),
    decreases events.len(),
{
    if events.len() > 0 {
        let before = events.drop_last();
        lemma_file_trace(target, absolute, before);
        lemma_file_length(target, absolute, before);
    }
}

/// How much has happened when a phase is reached.
proof fn lemma_file_length(target: FileTarget, absolute: bool, events: Seq<FileEvent>)
    ensures
        match file_run(target, absolute, events).0 {
            FilePhase::Vetting { .. } => events.len() == 1,
            FilePhase::Stating { resolved } => {
                events.len() == if resolved is Some { 2int } else { 0 }
            },
            FilePhase::Opening { resolved } => {
                events.len() == if resolved is Some { 3int } else { 1 }
            },
            FilePhase::Seeking { resolved } => {
                events.len() == if resolved is Some { 4int } else { 2 }
            },
            FilePhase::Reading { resolved } => {
                events.len() >= if resolved is Some { 4int } else { 2 }
            },
            FilePhase::Sweeping { .. } => events.len() >= 5,
            _ => true,
        },
    decreases events.len(),
{
    if events.len() > 0 {
        lemma_file_length(target, absolute, events.drop_last());
    }
}

/// A file is read from the offset of the command on, as many bytes as the command says, or all up
/// to the end if it does not say. It is told where to go only if that is not the start.
pub proof fn law_reads_are_what_was_asked_for(
    target: FileTarget,
    absolute: bool,
    events: Seq<FileEvent>,
)
    ensures
        ({
            let action = file_run(target, absolute, events).1;
            &&& action matches FileActionView::Seek(place) ==> place == target.offset && place > 0
            &&& action matches FileActionView::ReadExact(size) ==> {
                &&& size == target.size
                &&& size > 0
                &&& place_in_file(target, absolute, events) == target.offset
            }
            &&& action is ReadToEnd ==> {
                &&& target.size == 0
                &&& place_in_file(target, absolute, events) == target.offset
            }
        }),
{
    lemma_file_trace(target, absolute, events);
}

/// Whether the events tell the truth about a file of these contents: reads give what follows the
/// place that reading has come to.
pub open spec fn truthful_file(
    contents: Seq<u8>,
    target: FileTarget,
    absolute: bool,
    events: Seq<FileEvent>,
) -> bool {
    forall|i: int|
        0 <= i < events.len() ==> (#[trigger] events[i] matches FileEvent::Data(data) ==> {
            let place = place_in_file(target, absolute, events.take(i));
            match file_run(target, absolute, events.take(i)).1 {
                FileActionView::ReadExact(size) => {
                    &&& place + size <= contents.len()
                    &&& data@ == contents.subrange(place as int, (place + size) as int)
                },
                FileActionView::ReadToEnd => if place <= contents.len() {
                    data@ == contents.skip(place as int)
                } else {
                    data@.len() == 0
                },
                _ => true,
            }
        })
}

/// Whether `data` are the bytes of a file from the offset on, as many as the size says, or all if
/// it is zero.
pub open spec fn requested_of_file(
    contents: Seq<u8>,
    offset: u32,
    size: u32,
    data: Seq<u8>,
) -> bool {
    if size > 0 {
        offset + size <= contents.len() && data == contents.subrange(
            offset as int,
            offset + size,
        )
    } else if offset <= contents.len() {
        data == contents.skip(offset as int)
    } else {
        data.len() == 0
    }
}

/// What has been read when the events tell the truth.
proof fn lemma_file_contents(
    contents: Seq<u8>,
    target: FileTarget,
    absolute: bool,
    events: Seq<FileEvent>,
)
    requires
        truthful_file(contents, target, absolute, events),
    ensures
        match file_run(target, absolute, events).0 {
            FilePhase::Sweeping { data, .. } => requested_of_file(
                contents,
                target.offset,
                target.size,
                data@,
            ),
            FilePhase::Removing { data, .. } => requested_of_file(
                contents,
                target.offset,
                target.size,
                data@,
            ),
            _ => true,
        },
        file_run(target, absolute, events).1 matches FileActionView::Finish(Ok(data))
            ==> requested_of_file(contents, target.offset, target.size, data),
    decreases events.len(),
{
    if events.len() > 0 {
        let before = events.drop_last();
        assert forall|i: int| 0 <= i < before.len() implies #[trigger] before[i] == events[i]
            && before.take(i) == events.take(i) by {
            assert(before.take(i) =~= events.take(i));
        }
        assert(truthful_file(contents, target, absolute, before));
        lemma_file_contents(contents, target, absolute, before);
        lemma_file_trace(target, absolute, before);
        let last = events.len() - 1;
        assert(events.take(last) =~= before);
        assert(events[last] == events.last());
    }
}

/// What is handed over are the bytes of the file from the offset of the command on, as many as the
/// command says, or all up to the end.
pub proof fn law_files_give_the_requested_bytes(
    contents: Seq<u8>,
    target: FileTarget,
    absolute: bool,
    events: Seq<FileEvent>,
    data: Seq<u8>,
)
    requires
        truthful_file(contents, target, absolute, events),
        file_run(target, absolute, events).1 == FileActionView::Finish(Ok(data)),
    ensures
        target.size > 0 ==> {
            &&& target.offset + target.size <= contents.len()
            &&& data == contents.subrange(target.offset as int, target.offset + target.size)
        },
        target.size == 0 && target.offset <= contents.len() ==> data == contents.skip(
            target.offset as int,
        ),
        target.size == 0 && target.offset > contents.len() ==> data.len() == 0,
{
    lemma_file_contents(contents, target, absolute, events);
}

/// What happens when a file is opened and read without a failure.
pub open spec fn opened_and_read(offset: u32, shown: String, data: Vec<u8>) -> Seq<FileEvent> {
    if offset > 0 {
        seq![
            FileEvent::Stat { is_file: true, shown },
            FileEvent::Opened,
            FileEvent::Sought,
            FileEvent::Data(data),
        ]
    } else {
        seq![FileEvent::Stat { is_file: true, shown }, FileEvent::Opened, FileEvent::Data(data)]
    }
}

/// A file is looked up, opened and read, and its bytes are handed over. Nothing else is done to it.
pub proof fn law_plain_file_is_read(
    target: FileTarget,
    absolute: bool,
    shown: String,
    data: Vec<u8>,
)
    requires
        !target.is_temp,
        target.size > 0 ==> data@.len() == target.size,
    ensures
        ({
            let all = opened_and_read(target.offset, shown, data);
            let n = all.len() as int;
            &&& file_run(target, absolute, all.take(0)).1 == FileActionView::Stat
            &&& file_run(target, absolute, all.take(1)).1 == FileActionView::Open
            &&& target.offset > 0 ==> file_run(target, absolute, all.take(2)).1
                == FileActionView::Seek(target.offset as nat)
            &&& target.size > 0 ==> file_run(target, absolute, all.take(n - 1)).1
                == FileActionView::ReadExact(target.size as nat)
            &&& target.size == 0 ==> file_run(target, absolute, all.take(n - 1)).1
                == FileActionView::ReadToEnd
            &&& file_run(target, absolute, all).1 == FileActionView::Finish(Ok(data@))
        }),
{
    let all = opened_and_read(target.offset, shown, data);
    lemma_file_takes(target, absolute, all);
    assert(all.take(all.len() as int) =~= all);
    assert(all.take(3).len() == 3);
    assert(all.take(2).len() == 2);
    assert(all.take(1).len() == 1);
}

/// Whether `dir` is `path` or a directory on the way to it.
pub open spec fn lies_in(path: Seq<Seq<u8>>, dir: Seq<Seq<u8>>) -> bool {
    dir.len() <= path.len() && forall|k: int| 0 <= k < dir.len() ==> #[trigger] dir[k] == path[k]
}

/// A path lies in one of some directories if it starts with all the names of one of them.
pub proof fn law_paths_in_directories(path: Seq<Seq<u8>>, dirs: Seq<ResolvedPath>)
    ensures
        within(path, dirs) <==> exists|i: int|
            0 <= i < dirs.len() && lies_in(path, #[trigger] dirs[i]@),
{
    assert forall|i: int| 0 <= i < dirs.len() implies (#[trigger] dirs[i])@.is_prefix_of(path)
        == lies_in(path, dirs[i]@) by {
        let dir = dirs[i]@;
        if lies_in(path, dir) {
            assert(dir =~= path.subrange(0, dir.len() as int));
        }
        if dir.is_prefix_of(path) {
            assert forall|k: int| 0 <= k < dir.len() implies #[trigger] dir[k] == path[k] by {
                assert(path.subrange(0, dir.len() as int)[k] == path[k]);
            }
        }
    }
    if within(path, dirs) {
        let i = choose|i: int| 0 <= i < dirs.len() && (#[trigger] dirs[i])@.is_prefix_of(path);
        assert(lies_in(path, dirs[i]@));
    }
    if exists|i: int| 0 <= i < dirs.len() && lies_in(path, #[trigger] dirs[i]@) {
        let i = choose|i: int| 0 <= i < dirs.len() && lies_in(path, #[trigger] dirs[i]@);
        assert(dirs[i]@.is_prefix_of(path));
    }
}

/// What happens when a temporary file is resolved, found to lie in one of the directories, opened
/// and read without a failure.
pub open spec fn resolved_and_read(
    offset: u32,
    path: ResolvedPath,
    shown: String,
    dirs: Vec<ResolvedPath>,
    data: Vec<u8>,
) -> Seq<FileEvent> {
    if offset > 0 {
        seq![
            FileEvent::Resolved { path, shown },
            FileEvent::TempDirs(dirs),
            FileEvent::Stat { is_file: true, shown },
            FileEvent::Opened,
            FileEvent::Sought,
            FileEvent::Data(data),
        ]
    } else {
        seq![
            FileEvent::Resolved { path, shown },
            FileEvent::TempDirs(dirs),
            FileEvent::Stat { is_file: true, shown },
            FileEvent::Opened,
            FileEvent::Data(data),
        ]
    }
}

/// A temporary file is resolved, below the directory for such files if its path is not absolute. If
/// it lies where such files do it is looked up, opened and read, at the place that it was resolved
/// to, and its bytes are handed over unless it may have to be removed.
#[verifier::spinoff_prover]
pub proof fn law_temp_file_is_read(
    target: FileTarget,
    absolute: bool,
    path: ResolvedPath,
    shown: String,
    dirs: Vec<ResolvedPath>,
    data: Vec<u8>,
    i: int,
)
    requires
        target.is_temp,
        target.size > 0 ==> data@.len() == target.size,
        0 <= i < dirs@.len(),
        lies_in(path@, dirs@[i]@),
    ensures
        ({
            let all = resolved_and_read(target.offset, path, shown, dirs, data);
            let n = all.len() as int;
            &&& file_run(target, absolute, all.take(0)).1 == (FileActionView::Canonicalize {
                path: target.path,
                below_temp_dir: !absolute,
            })
            &&& file_run(target, absolute, all.take(1)).1 == FileActionView::ListTempDirs
            &&& file_run(target, absolute, all.take(2)).1 == FileActionView::Stat
            &&& file_run(target, absolute, all.take(2)).0.place() == Some(path)
            &&& file_run(target, absolute, all.take(3)).1 == FileActionView::Open
            &&& file_run(target, absolute, all.take(3)).0.place() == Some(path)
            &&& target.offset > 0 ==> file_run(target, absolute, all.take(4)).1
                == FileActionView::Seek(target.offset as nat)
            &&& target.size > 0 ==> file_run(target, absolute, all.take(n - 1)).1
                == FileActionView::ReadExact(target.size as nat)
            &&& target.size == 0 ==> file_run(target, absolute, all.take(n - 1)).1
                == FileActionView::ReadToEnd
            &&& file_run(target, absolute, all.take(n - 1)).0.place() == Some(path)
            &&& if contains(target.path, "tty-graphics-protocol"@) {
                file_run(target, absolute, all).1 == FileActionView::ListTempDirs
            } else {
                file_run(target, absolute, all).1 == FileActionView::Finish(Ok(data@))
            }
        }),
{
    lemma_temp_file(target, absolute, path, shown, dirs, data, i);
}

/// The phases of a temporary file that is read.
#[verifier::spinoff_prover]
proof fn lemma_temp_file(
    target: FileTarget,
    absolute: bool,
    path: ResolvedPath,
    shown: String,
    dirs: Vec<ResolvedPath>,
    data: Vec<u8>,
    i: int,
)
    requires
        target.is_temp,
        target.size > 0 ==> data@.len() == target.size,
        0 <= i < dirs@.len(),
        lies_in(path@, dirs@[i]@),
    ensures
        ({
            let all = resolved_and_read(target.offset, path, shown, dirs, data);
            let n = all.len() as int;
            &&& file_run(target, absolute, all.take(0)) == (
                FilePhase::Resolving,
                FileActionView::Canonicalize { path: target.path, below_temp_dir: !absolute },
            )
            &&& file_run(target, absolute, all.take(1)) == (
                FilePhase::Vetting { path, shown },
                FileActionView::ListTempDirs,
            )
            &&& file_run(target, absolute, all.take(2)) == (
                FilePhase::Stating { resolved: Some(path) },
                FileActionView::Stat,
            )
            &&& file_run(target, absolute, all.take(3)) == (
                FilePhase::Opening { resolved: Some(path) },
                FileActionView::Open,
            )
            &&& target.offset > 0 ==> file_run(target, absolute, all.take(4)) == (
                FilePhase::Seeking { resolved: Some(path) },
                FileActionView::Seek(target.offset as nat),
            )
            &&& file_run(target, absolute, all.take(n - 1)) == (
                FilePhase::Reading { resolved: Some(path) },
                if target.size > 0 {
                    FileActionView::ReadExact(target.size as nat)
                } else {
                    FileActionView::ReadToEnd
                },
            )
            &&& file_run(target, absolute, all) == if contains(
                target.path,
                "tty-graphics-protocol"@,
            ) {
                (FilePhase::Sweeping { path, data }, FileActionView::ListTempDirs)
            } else {
                (FilePhase::Finished, FileActionView::Finish(Ok(data@)))
            }
        }),
{
    let all = resolved_and_read(target.offset, path, shown, dirs, data);
    let n = all.len() as int;
    assert(within(path@, dirs@)) by {
        law_paths_in_directories(path@, dirs@);
    }
    lemma_file_takes(target, absolute, all);
    assert(all.take(n) =~= all);
    assert(file_run(target, absolute, all.take(1)).0 == (FilePhase::Vetting { path, shown }));
    assert(file_run(target, absolute, all.take(2)).0 == (FilePhase::Stating {
        resolved: Some(path),
    }));
    assert(file_run(target, absolute, all.take(3)).0 == (FilePhase::Opening {
        resolved: Some(path),
    }));
    assert(file_run(target, absolute, all.take(4)).0 == if target.offset > 0 {
        FilePhase::Seeking { resolved: Some(path) }
    } else {
        FilePhase::Reading { resolved: Some(path) }
    });
    assert(target.offset > 0 ==> file_run(target, absolute, all.take(5)).0
        == (FilePhase::Reading { resolved: Some(path) }));
}

/// A temporary file whose path tells that it was made for this is removed when it has been read, if
/// it lies in one of the directories that are listed then. Its bytes are handed over either way.
#[verifier::spinoff_prover]
pub proof fn law_temp_file_is_removed(
    target: FileTarget,
    absolute: bool,
    path: ResolvedPath,
    shown: String,
    dirs: Vec<ResolvedPath>,
    data: Vec<u8>,
    i: int,
    later: Vec<ResolvedPath>,
)
    requires
        target.is_temp,
        target.size > 0 ==> data@.len() == target.size,
        0 <= i < dirs@.len(),
        lies_in(path@, dirs@[i]@),
        contains(target.path, "tty-graphics-protocol"@),
    ensures
        ({
            let listed = resolved_and_read(target.offset, path, shown, dirs, data).push(
                FileEvent::TempDirs(later),
            );
            if exists|j: int| 0 <= j < later@.len() && lies_in(path@, #[trigger] later@[j]@) {
                &&& file_run(target, absolute, listed).1 == FileActionView::Remove
                &&& file_run(target, absolute, listed).0.place() == Some(path)
                &&& file_run(target, absolute, listed.push(FileEvent::Removed)).1
                    == FileActionView::Finish(Ok(data@))
            } else {
                file_run(target, absolute, listed).1 == FileActionView::Finish(Ok(data@))
            }
        }),
{
    let all = resolved_and_read(target.offset, path, shown, dirs, data);
    let listed = all.push(FileEvent::TempDirs(later));
    lemma_temp_file(target, absolute, path, shown, dirs, data, i);
    law_paths_in_directories(path@, later@);
    lemma_file_push(target, absolute, all, FileEvent::TempDirs(later));
    lemma_file_push(target, absolute, listed, FileEvent::Removed);
}

/// A temporary file that lies elsewhere is neither looked up nor opened.
pub proof fn law_other_temp_files_are_refused(
    target: FileTarget,
    absolute: bool,
    path: ResolvedPath,
    shown: String,
    dirs: Vec<ResolvedPath>,
)
    requires
        target.is_temp,
        forall|i: int| 0 <= i < dirs@.len() ==> !lies_in(path@, #[trigger] dirs@[i]@),
    ensures
        file_run(
            target,
            absolute,
            seq![FileEvent::Resolved { path, shown }, FileEvent::TempDirs(dirs)],
        ).1 == FileActionView::Finish(
            Err(ErrorView::PathTraversal("temp file resolves outside temp dir: "@ + shown@)),
        ),
{
    let all = seq![FileEvent::Resolved { path, shown }, FileEvent::TempDirs(dirs)];
    law_paths_in_directories(path@, dirs@);
    lemma_file_takes(target, absolute, all);
    assert(all.take(2) =~= all);
}

/// An action that fails ends the reading with an error that tells which one it was.
pub proof fn law_file_failures(
    target: FileTarget,
    absolute: bool,
    events: Seq<FileEvent>,
    shown: String,
    error: String,
)
    ensures
        ({
            let action = file_run(target, absolute, events).1;
            let next = file_run(
                target,
                absolute,
                events.push(FileEvent::Failed { shown, error }),
            ).1;
            let about = |what: Seq<char>|
                FileActionView::Finish(Err(ErrorView::IoError(what + error@)));
            &&& action is Canonicalize ==> next == about("canonicalize "@ + shown@ + ": "@)
            &&& action is Stat ==> next == about("stat "@ + shown@ + ": "@)
            &&& action is Open ==> next == about("open "@ + shown@ + ": "@)
            &&& action is Seek ==> next == about("seek: "@)
            &&& action is ReadExact ==> next == about("read_exact: "@)
            &&& action is ReadToEnd ==> next == about("read_to_end: "@)
        }),
{
    lemma_file_trace(target, absolute, events);
    lemma_file_push(target, absolute, events, FileEvent::Failed { shown, error });
}

/// What is not a regular file is not opened.
pub proof fn law_irregular_files_are_refused(
    target: FileTarget,
    absolute: bool,
    events: Seq<FileEvent>,
    shown: String,
)
    requires
        file_run(target, absolute, events).1 is Stat,
    ensures
        file_run(target, absolute, events.push(FileEvent::Stat { is_file: false, shown })).1
            == FileActionView::Finish(Err(ErrorView::IoError("not a regular file: "@ + shown@))),
{
    lemma_file_trace(target, absolute, events);
    lemma_file_push(target, absolute, events, FileEvent::Stat { is_file: false, shown });
}

/// What cannot come out of an action ends the reading with an error.
pub proof fn law_foreign_file_events_are_errors(
    target: FileTarget,
    absolute: bool,
    events: Seq<FileEvent>,
    event: FileEvent,
)
    requires
        match file_run(target, absolute, events).1 {
            FileActionView::Canonicalize { .. } => !(event is Resolved) && !(event is Failed),
            FileActionView::ListTempDirs => !(event is TempDirs),
            FileActionView::Stat => !(event is Stat) && !(event is Failed),
            FileActionView::Open => !(event is Opened) && !(event is Failed),
            FileActionView::Seek(_) => !(event is Sought) && !(event is Failed),
            FileActionView::ReadExact(size) => {
                &&& !(event is Failed)
                &&& event matches FileEvent::Data(data) ==> data@.len() != size
            },
            FileActionView::ReadToEnd => !(event is Data) && !(event is Failed),
            FileActionView::Remove => !(event is Removed),
            FileActionView::Finish(_) => true,
        },
    ensures
        file_run(target, absolute, events.push(event)).1 == FileActionView::Finish(
            Err(ErrorView::IoError("unexpected event"@)),
        ),
{
    lemma_file_trace(target, absolute, events);
    lemma_file_push(target, absolute, events, event);
}

} // verus!
