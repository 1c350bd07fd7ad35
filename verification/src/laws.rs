//! What holds of the storage's rules taken together.

use crate::format::{Format, PersistKind};
use crate::ident::{all_digits, decimal_value};
use crate::reading::ReadAction;
use crate::storage::{FileData, HookStage, Storage};
use crate::writing::{hooks_after, hooks_before, reply, PutAction, PutEvent, PutStage, PutState};
use vstd::prelude::*;

verus! {

/// A file's record is determined by the settings, the kind and the
/// encoding: two records of the same file agree in name, directory and
/// path.
pub proof fn lemma_file_path_is_determined(
    storage: Storage,
    kind: PersistKind,
    format: Format,
    first: FileData,
    second: FileData,
)
    requires
        storage.locates(first, kind, format),
        storage.locates(second, kind, format),
    ensures
        first.file_name@ == second.file_name@,
        first.file_directory@ == second.file_directory@,
        first.file_path@ == second.file_path@,
        first.spec_context() == second.spec_context(),
{
}

/// Files of one kind in two encodings have names that differ in the
/// extension only: each name ends in its encoding's extension, and what
/// stands before the extension is the same text in both.
pub proof fn lemma_names_differ_by_extension(
    storage: Storage,
    kind: PersistKind,
    first: Format,
    second: Format,
)
    ensures
        ({
            let a = storage.spec_file_name(kind, first);
            let b = storage.spec_file_name(kind, second);
            &&& a.len() == b.len()
            &&& a.len() >= 3
            &&& a.skip(a.len() - 3) == first.spec_extension()
            &&& b.skip(b.len() - 3) == second.spec_extension()
            &&& a.take(a.len() - 3) == b.take(b.len() - 3)
        }),
{
    let a = storage.spec_file_name(kind, first);
    let b = storage.spec_file_name(kind, second);
    assert(a.take(a.len() - 3) =~= b.take(b.len() - 3));
    assert(a.skip(a.len() - 3) =~= first.spec_extension());
    assert(b.skip(b.len() - 3) =~= second.spec_extension());
}

/// Material written in the textual encoding reads back byte for byte: it
/// is written without conversion, the read loads the file of that same
/// encoding, and non-empty contents found there are handed back as they
/// are.
pub proof fn lemma_textual_round_trip(storage: Storage, kind: PersistKind, stored: Vec<u8>)
    requires
        storage.formats@.contains(Format::Pem),
        stored@.len() > 0,
    ensures
        storage.write_of(kind, Format::Pem) matches PutAction::Write { format, convert, .. }
            && format == Format::Pem && !convert,
        storage.spec_source_format(Format::Pem) == Format::Pem,
        storage.after_load(kind, Format::Pem, Some(stored)) == ReadAction::Return(Some(stored)),
{
}

/// A read finds nothing, and fails not, where no file exists and where the
/// file is empty.
pub proof fn lemma_missing_or_empty_is_absent(
    storage: Storage,
    kind: PersistKind,
    format: Format,
    empty: Vec<u8>,
)
    requires
        empty@.len() == 0,
    ensures
        storage.after_load(kind, format, None) == ReadAction::Return(None),
        storage.after_load(kind, format, Some(empty)) == ReadAction::Return(None),
{
}

/// A read of an encoding that is not configured loads the file of the
/// first configured encoding and asks for exactly its contents to be
/// converted from that encoding to the one asked for.
pub proof fn lemma_unconfigured_read_converts(
    storage: Storage,
    kind: PersistKind,
    format: Format,
    stored: Vec<u8>,
)
    requires
        storage.formats@.len() > 0,
        !storage.formats@.contains(format),
        stored@.len() > 0,
    ensures
        storage.spec_source_format(format) == storage.formats@[0],
        storage.after_load(kind, format, Some(stored)) == (ReadAction::Convert {
            data: stored,
            from: storage.formats@[0],
            to: format,
            kind,
        }),
{
}

/// From the answer on whether a file exists, four steps that each succeed
/// lead through its write: the create hooks before and after for a new
/// file, the edit hooks before and after for one that existed, and between
/// them the write with the mode of the kind's class and the change of
/// ownership. After them the stage is that of the hooks that follow.
pub proof fn lemma_write_cycle(storage: Storage, kind: PersistKind, state: PutState, existed: bool)
    requires
        state.stage == PutStage::Check,
        state.index < storage.formats@.len(),
    ensures
        ({
            let format = storage.formats@[state.index as int];
            let first = storage.put_model(kind, state, PutEvent::Exists(existed));
            let second = storage.put_model(kind, first.0, PutEvent::Done);
            let third = storage.put_model(kind, second.0, PutEvent::Done);
            let fourth = storage.put_model(kind, third.0, PutEvent::Done);
            &&& first.1 == (PutAction::RunHooks {
                format,
                stage: if existed {
                    HookStage::PreEdit
                } else {
                    HookStage::PreCreate
                },
            })
            &&& second.1 == (PutAction::Write {
                format,
                mode: storage.spec_file_mode(kind),
                convert: format != Format::Pem,
            })
            &&& third.1 == storage.ownership_of(kind, format)
            &&& fourth.1 == (PutAction::RunHooks {
                format,
                stage: if existed {
                    HookStage::PostEdit
                } else {
                    HookStage::PostCreate
                },
            })
            &&& fourth.0 == (PutState { index: state.index, stage: PutStage::PostHooks, existed })
        }),
{
}

/// After the hooks that follow a write, the next configured encoding is
/// taken up, or the write is complete where there is none.
pub proof fn lemma_next_encoding(storage: Storage, kind: PersistKind, state: PutState)
    requires
        state.stage == PutStage::PostHooks,
        state.index < storage.formats@.len(),
    ensures
        ({
            let next = storage.put_model(kind, state, PutEvent::Done);
            if state.index + 1 < storage.formats@.len() {
                &&& next.0 == (PutState {
                    index: (state.index + 1) as usize,
                    stage: PutStage::Check,
                    existed: false,
                })
                &&& next.1 == (PutAction::CheckExists {
                    format: storage.formats@[state.index + 1],
                })
            } else {
                next.0.stage == PutStage::Completed && next.1 == PutAction::Complete
            }
        }),
{
}

/// In a write in which nothing fails, the work on the encoding at
/// `position` begins after five steps for each encoding before it, with
/// the question whether its file exists.
pub proof fn lemma_encoding_begins(
    storage: Storage,
    kind: PersistKind,
    existing: Seq<bool>,
    position: nat,
)
    requires
        position < storage.formats@.len(),
        existing.len() == storage.formats@.len(),
    ensures
        storage.after(kind, existing, 5 * position) == (
            PutState { index: position as usize, stage: PutStage::Check, existed: false },
            PutAction::CheckExists { format: storage.formats@[position as int] },
        ),
    decreases position,
{
    assert(storage.formats.len() == storage.formats@.len());
    if position > 0 {
        let base = (5 * (position - 1)) as nat;
        lemma_encoding_begins(storage, kind, existing, (position - 1) as nat);
        let s0 = storage.after(kind, existing, base);
        let s1 = storage.after(kind, existing, base + 1);
        let s2 = storage.after(kind, existing, base + 2);
        let s3 = storage.after(kind, existing, base + 3);
        let s4 = storage.after(kind, existing, base + 4);
        let s5 = storage.after(kind, existing, base + 5);
        assert(s1 == storage.put_model(kind, s0.0, reply(s0.0, s0.1, existing)));
        assert(s2 == storage.put_model(kind, s1.0, reply(s1.0, s1.1, existing)));
        assert(s3 == storage.put_model(kind, s2.0, reply(s2.0, s2.1, existing)));
        assert(s4 == storage.put_model(kind, s3.0, reply(s3.0, s3.1, existing)));
        assert(s5 == storage.put_model(kind, s4.0, reply(s4.0, s4.1, existing)));
        assert(base + 5 == 5 * position);
    }
}

/// In a write in which nothing fails, each configured encoding, in the
/// configured order, takes five steps: the question whether its file
/// exists; the hooks that precede the write, the create hooks for a new
/// file and the edit hooks for one that exists; the write, with the mode
/// of the kind's class; the change of ownership; and the hooks that follow
/// the write, of the same pair. No other hooks run.
pub proof fn lemma_encoding_actions(
    storage: Storage,
    kind: PersistKind,
    existing: Seq<bool>,
    position: nat,
)
    requires
        position < storage.formats@.len(),
        existing.len() == storage.formats@.len(),
    ensures
        ({
            let format = storage.formats@[position as int];
            let existed = existing[position as int];
            &&& storage.after(kind, existing, 5 * position).1 == (PutAction::CheckExists { format })
            &&& storage.after(kind, existing, 5 * position + 1).1 == (PutAction::RunHooks {
                format,
                stage: hooks_before(existed),
            })
            &&& storage.after(kind, existing, 5 * position + 2).1 == storage.write_of(kind, format)
            &&& storage.after(kind, existing, 5 * position + 3).1 == storage.ownership_of(
                kind,
                format,
            )
            &&& storage.after(kind, existing, 5 * position + 4).1 == (PutAction::RunHooks {
                format,
                stage: hooks_after(existed),
            })
        }),
{
    let base = 5 * position;
    assert(storage.formats.len() == storage.formats@.len());
    lemma_encoding_begins(storage, kind, existing, position);
    let s0 = storage.after(kind, existing, base);
    let s1 = storage.after(kind, existing, base + 1);
    let s2 = storage.after(kind, existing, base + 2);
    let s3 = storage.after(kind, existing, base + 3);
    let s4 = storage.after(kind, existing, base + 4);
    assert(s1 == storage.put_model(kind, s0.0, reply(s0.0, s0.1, existing)));
    assert(s2 == storage.put_model(kind, s1.0, reply(s1.0, s1.1, existing)));
    assert(s3 == storage.put_model(kind, s2.0, reply(s2.0, s2.1, existing)));
    assert(s4 == storage.put_model(kind, s3.0, reply(s3.0, s3.1, existing)));
}

/// A write in which nothing fails is complete after five steps for each
/// configured encoding, and not before; with no encoding configured it is
/// complete at once.
pub proof fn lemma_write_completes(storage: Storage, kind: PersistKind, existing: Seq<bool>)
    requires
        existing.len() == storage.formats@.len(),
    ensures
        storage.after(kind, existing, 5 * storage.formats@.len()).1 == PutAction::Complete,
        forall|steps: nat|
            steps < 5 * storage.formats@.len() ==> #[trigger] storage.after(
                kind,
                existing,
                steps,
            ).1 != PutAction::Complete,
{
    let count = storage.formats@.len();
    if count > 0 {
        let last = (count - 1) as nat;
        let base = 5 * last;
        assert(storage.formats.len() == storage.formats@.len());
        lemma_encoding_begins(storage, kind, existing, last);
        let s0 = storage.after(kind, existing, base);
        let s1 = storage.after(kind, existing, base + 1);
        let s2 = storage.after(kind, existing, base + 2);
        let s3 = storage.after(kind, existing, base + 3);
        let s4 = storage.after(kind, existing, base + 4);
        let s5 = storage.after(kind, existing, base + 5);
        assert(s1 == storage.put_model(kind, s0.0, reply(s0.0, s0.1, existing)));
        assert(s2 == storage.put_model(kind, s1.0, reply(s1.0, s1.1, existing)));
        assert(s3 == storage.put_model(kind, s2.0, reply(s2.0, s2.1, existing)));
        assert(s4 == storage.put_model(kind, s3.0, reply(s3.0, s3.1, existing)));
        assert(s5 == storage.put_model(kind, s4.0, reply(s4.0, s4.1, existing)));
        assert(base + 5 == 5 * count);
        assert forall|steps: nat| steps < 5 * count implies #[trigger] storage.after(
            kind,
            existing,
            steps,
        ).1 != PutAction::Complete by {
            let position = steps / 5;
            assert(position < count);
            assert(steps == 5 * position + steps % 5);
            lemma_encoding_actions(storage, kind, existing, position);
        }
    }
}

/// A failure at any step of an unfinished write gives the write up, and
/// whatever is reported after that, nothing more is asked.
pub proof fn lemma_failure_ends_write(
    storage: Storage,
    kind: PersistKind,
    state: PutState,
    later: PutEvent,
)
    requires
        state.stage != PutStage::Completed,
    ensures
        storage.put_model(kind, state, PutEvent::Failed).1 == PutAction::Abort,
        storage.put_model(kind, state, PutEvent::Failed).0.stage == PutStage::Aborted,
        storage.put_model(
            kind,
            storage.put_model(kind, state, PutEvent::Failed).0,
            later,
        ) == storage.put_model(kind, state, PutEvent::Failed),
{
}

/// Whether a configured owner or group is purely numeric: a non-empty text
/// of decimal digits whose number fits in 32 bits.
pub open spec fn is_numeric(setting: Option<String>) -> bool {
    setting matches Some(text) && all_digits(text@) && text@.len() > 0 && decimal_value(text@)
        <= u32::MAX
}

/// Ownership changes only for a purely numeric setting: an owner or a
/// group is handed on exactly where the setting for the kind's class is
/// purely numeric, and is then the number that the digits write. A
/// symbolic name, the empty text and a number beyond 32 bits change
/// nothing.
pub proof fn lemma_owner_is_numeric_only(storage: Storage, kind: PersistKind)
    ensures
        ({
            let owner = if kind == PersistKind::Certificate {
                storage.cert_file_owner
            } else {
                storage.pk_file_owner
            };
            let group = if kind == PersistKind::Certificate {
                storage.cert_file_group
            } else {
                storage.pk_file_group
            };
            &&& storage.spec_owner(kind).0 is Some <==> is_numeric(owner)
            &&& storage.spec_owner(kind).1 is Some <==> is_numeric(group)
            &&& is_numeric(owner) ==> storage.spec_owner(kind).0 == Some(
                decimal_value(owner->Some_0@) as u32,
            )
            &&& is_numeric(group) ==> storage.spec_owner(kind).1 == Some(
                decimal_value(group->Some_0@) as u32,
            )
        }),
{
}

} // verus!
