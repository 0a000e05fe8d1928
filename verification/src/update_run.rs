//! The firmware update procedure as a machine of states.
//!
//! The machine decides; its driver acts. Each step takes the outcome of the
//! last action and returns the next one. The procedure is: put the device
//! into update mode, let it settle, build one session for each file, and for
//! each session in turn read a notification and send the next chunk that is
//! not acknowledged, until none is left; then send the completion marker,
//! let the device settle and reset it. An error that the device reports ends
//! the update at once. There is no limit on how often a chunk is sent again.

use crate::chunks::{filled, push_bytes, push_filled, ChunkModel, ChunkType, Completed};
use crate::constants::{
    HID_COMMAND_PREPARE_UPDATE, HID_COMMAND_RESET, HID_REPORT_ID_COMMUNICATION,
    HID_REPORT_ID_TRANSFER, STATE_CHANGE_SLEEP_MILLIS,
};
use crate::device_messages::{
    ack_id_of, ack_package_of, ack_type_of, error_info_of, has_tag, parse_hid_update_message, tag_ack,
    tag_error, HidUpdateMessage,
};
use crate::device_update::{
    acknowledged, all_acked, new_transfer, next_unacked, wrap16, TransferFile, TransferModel,
    UpdateError,
};
use crate::text::{first_index, lemma_first_index};
use vstd::prelude::*;
use vstd::slice::{slice_subrange, slice_to_vec};

verus! {

/// Number of bytes that the driver reads at once.
pub const READ_CAPACITY: usize = 100;

/// How long the driver waits for a notification, in milliseconds.
pub const READ_TIMEOUT_MILLIS: i32 = 1000;

/// A file as the driver hands it over: its name and what it holds. For a
/// delete marker the content is not looked at.
#[derive(Debug, Clone)]
pub struct FileSource {
    pub filename: String,
    pub content: Vec<u8>,
}

/// What the machine waits for.
#[derive(Debug, Clone, Copy, PartialEq, Eq, Structural)]
pub enum UpdatePhase {
    /// Nothing has happened yet.
    Idle,
    /// The command that prepares the update is being written.
    PrepareWrite,
    /// The device settles after that command.
    PrepareSettle,
    /// The files are being read.
    Loading,
    /// A notification is being read.
    Polling,
    /// A chunk is being written.
    ChunkWrite,
    /// The device settles before the completion marker.
    CompleteSettle,
    /// The completion marker is being written.
    CompleteWrite,
    /// The device settles before the reset.
    ResetSettle,
    /// The reset command is being written.
    ResetWrite,
    /// The update has ended.
    Finished,
}

/// The outcome of the action that the machine asked for.
#[derive(Debug)]
pub enum UpdateEvent {
    /// The update is to begin.
    Start,
    /// The report was written.
    WriteDone,
    /// The report could not be written.
    WriteFailed(String),
    /// The pause is over.
    SleepDone,
    /// The files were read.
    FilesLoaded(Vec<FileSource>),
    /// A file could not be read.
    FilesFailed(UpdateError),
    /// The read returned with `size` bytes in the buffer; the buffer's first
    /// byte is the report identifier.
    ReadDone { buffer: Vec<u8>, size: usize },
    /// The read failed or timed out.
    ReadFailed(String),
}

/// What the driver is to do next.
#[derive(Debug)]
pub enum UpdateAction {
    /// Write the report to the device.
    Write(Vec<u8>),
    /// Pause for the given number of milliseconds.
    Sleep(u64),
    /// Read the files of the update.
    LoadFiles,
    /// Read a notification into a buffer of the given size.
    Read { capacity: usize, timeout_millis: i32 },
    /// Stop: the update has ended with this result.
    Finish(Result<(), UpdateError>),
    /// The event was not the one waited for; nothing has changed.
    Ignored,
}

/// The report of a command without arguments on the command channel: the
/// report identifier, the command byte, seven zeros.
pub open spec fn command_report(command: u8) -> Seq<u8> {
    seq![1u8, command] + filled(7, 0)
}

/// The report that carries a packet on the transfer channel.
pub open spec fn transfer_report(packet: Seq<u8>) -> Seq<u8> {
    seq![2u8] + packet
}

/// The chunk that marks the completion of all transfers.
pub open spec fn completed_chunk() -> ChunkModel {
    ChunkModel {
        type_: ChunkType::Complete,
        id: 0,
        package: 0,
        total_packages: 0,
        content: Seq::empty(),
        acked: false,
    }
}

/// The sessions of the files of an update: the id of each is its position.
pub open spec fn sessions_of(sources: Seq<FileSource>) -> Seq<TransferModel> {
    Seq::new(
        sources.len(),
        |i: int| new_transfer(wrap16(i), sources[i].filename@, sources[i].content@),
    )
}

/// The notification that a read has brought: what follows the report
/// identifier, if anything was read.
pub open spec fn notification(buffer: Seq<u8>, size: usize) -> Option<Seq<u8>> {
    if size > 0 && buffer.len() >= 1 {
        Some(buffer.subrange(1, buffer.len() as int))
    } else {
        None
    }
}

/// Whether the notification is an error that the device reports.
pub open spec fn is_device_error(data: Option<Seq<u8>>) -> bool {
    data is Some && has_tag(data->0, tag_error())
}

/// A session after a notification: an acknowledgment is applied to it, and
/// anything else leaves it as it was.
pub open spec fn polled(file: TransferModel, data: Option<Seq<u8>>) -> TransferModel {
    if data is Some && has_tag(data->0, tag_ack()) {
        TransferModel {
            chunks: acknowledged(
                file.chunks,
                file.id,
                ack_id_of(data->0),
                ack_type_of(data->0),
                ack_package_of(data->0),
            ),
            ..file
        }
    } else {
        file
    }
}

/// The position of the first session at or after `from` that is not
/// complete, or the number of sessions if there is none.
pub open spec fn first_incomplete(files: Seq<TransferModel>, from: int) -> int {
    first_index(files, |f: TransferModel| !all_acked(f.chunks), from)
}

/// What the machine holds, as plain values.
pub struct UpdateRunModel {
    pub phase: UpdatePhase,
    pub files: Seq<TransferModel>,
    pub current: nat,
}

impl UpdateRunModel {
    /// The machine turns to the first session from the current one on that
    /// is not complete, and asks for a read; if every session is complete
    /// it lets the device settle before the completion marker.
    pub open spec fn turns_to_next(self, post: UpdateRunModel, action: UpdateAction) -> bool {
        let k = first_incomplete(self.files, self.current as int);
        if self.current <= self.files.len() && k < self.files.len() {
            &&& post == (UpdateRunModel { phase: UpdatePhase::Polling, current: k as nat, ..self })
            &&& action == (UpdateAction::Read {
                capacity: READ_CAPACITY,
                timeout_millis: READ_TIMEOUT_MILLIS,
            })
        } else {
            &&& post == (UpdateRunModel { phase: UpdatePhase::CompleteSettle, ..self })
            &&& action == UpdateAction::Sleep(STATE_CHANGE_SLEEP_MILLIS)
        }
    }

    /// The machine has read a notification, or nothing. An error of the
    /// device ends the update with the device's text. Else an
    /// acknowledgment is applied to the current session, and the session's
    /// next chunk is written, whether or not anything was read; if no chunk
    /// is left the machine turns to the next session.
    pub open spec fn after_read(
        self,
        data: Option<Seq<u8>>,
        post: UpdateRunModel,
        action: UpdateAction,
    ) -> bool {
        if self.current >= self.files.len() {
            self.turns_to_next(post, action)
        } else if is_device_error(data) {
            &&& post == (UpdateRunModel { phase: UpdatePhase::Finished, ..self })
            &&& action matches UpdateAction::Finish(Err(UpdateError::DeviceError(info)))
            &&& info@ == error_info_of(data->0)
        } else {
            let file = polled(self.files[self.current as int], data);
            let files = self.files.update(self.current as int, file);
            let k = next_unacked(file.chunks);
            if k < file.chunks.len() {
                &&& post == (UpdateRunModel { phase: UpdatePhase::ChunkWrite, files, ..self })
                &&& action matches UpdateAction::Write(report)
                &&& report@ == transfer_report(file.chunks[k].packet())
            } else {
                (UpdateRunModel { files, ..self }).turns_to_next(post, action)
            }
        }
    }

    /// The machine moves to the given phase and asks for a report to be
    /// written.
    pub open spec fn writes(
        self,
        phase: UpdatePhase,
        report: Seq<u8>,
        post: UpdateRunModel,
        action: UpdateAction,
    ) -> bool {
        &&& post == (UpdateRunModel { phase, ..self })
        &&& action matches UpdateAction::Write(bytes)
        &&& bytes@ == report
    }

    /// One step of the machine: the state before, the event, the state
    /// after and the action that is asked for.
    pub open spec fn step(
        self,
        event: UpdateEvent,
        post: UpdateRunModel,
        action: UpdateAction,
    ) -> bool {
        match (self.phase, event) {
            (UpdatePhase::Idle, UpdateEvent::Start) => self.writes(
                UpdatePhase::PrepareWrite,
                command_report(HID_COMMAND_PREPARE_UPDATE),
                post,
                action,
            ),
            (UpdatePhase::PrepareWrite, UpdateEvent::WriteDone) => {
                &&& post == (UpdateRunModel { phase: UpdatePhase::PrepareSettle, ..self })
                &&& action == UpdateAction::Sleep(STATE_CHANGE_SLEEP_MILLIS)
            },
            (UpdatePhase::PrepareSettle, UpdateEvent::SleepDone) => {
                &&& post == (UpdateRunModel { phase: UpdatePhase::Loading, ..self })
                &&& action == UpdateAction::LoadFiles
            },
            (UpdatePhase::Loading, UpdateEvent::FilesLoaded(sources)) => (UpdateRunModel {
                files: sessions_of(sources@),
                current: 0,
                ..self
            }).turns_to_next(post, action),
            (UpdatePhase::Loading, UpdateEvent::FilesFailed(error)) => {
                &&& post == (UpdateRunModel { phase: UpdatePhase::Finished, ..self })
                &&& action == UpdateAction::Finish(Err(error))
            },
            (UpdatePhase::Polling, UpdateEvent::ReadDone { buffer, size }) => self.after_read(
                notification(buffer@, size),
                post,
                action,
            ),
            (UpdatePhase::Polling, UpdateEvent::ReadFailed(_)) => self.after_read(
                None,
                post,
                action,
            ),
            (UpdatePhase::ChunkWrite, UpdateEvent::WriteDone) => self.turns_to_next(post, action),
            (UpdatePhase::CompleteSettle, UpdateEvent::SleepDone) => self.writes(
                UpdatePhase::CompleteWrite,
                transfer_report(completed_chunk().packet()),
                post,
                action,
            ),
            (UpdatePhase::CompleteWrite, UpdateEvent::WriteDone) => {
                &&& post == (UpdateRunModel { phase: UpdatePhase::ResetSettle, ..self })
                &&& action == UpdateAction::Sleep(STATE_CHANGE_SLEEP_MILLIS)
            },
            (UpdatePhase::ResetSettle, UpdateEvent::SleepDone) => self.writes(
                UpdatePhase::ResetWrite,
                command_report(HID_COMMAND_RESET),
                post,
                action,
            ),
            (UpdatePhase::ResetWrite, UpdateEvent::WriteDone) => {
                &&& post == (UpdateRunModel { phase: UpdatePhase::Finished, ..self })
                &&& action == UpdateAction::Finish(Ok(()))
            },
            (UpdatePhase::PrepareWrite, UpdateEvent::WriteFailed(message))
            | (UpdatePhase::ChunkWrite, UpdateEvent::WriteFailed(message))
            | (UpdatePhase::CompleteWrite, UpdateEvent::WriteFailed(message))
            | (UpdatePhase::ResetWrite, UpdateEvent::WriteFailed(message)) => {
                &&& post == (UpdateRunModel { phase: UpdatePhase::Finished, ..self })
                &&& action == UpdateAction::Finish(Err(UpdateError::WriteFailed(message)))
            },
            _ => post == self && action is Ignored,
        }
    }
}

/// Builds the report of a command without arguments.
pub fn build_command_report(command: u8) -> (out: Vec<u8>)
    ensures
        out@ == command_report(command),
        out@.len() == 9,
{
    let mut out: Vec<u8> = Vec::new();
    out.push(HID_REPORT_ID_COMMUNICATION);
    out.push(command);
    push_filled(&mut out, 7, 0);
    out
}

/// Builds the report that carries a packet on the transfer channel.
pub fn build_transfer_report(packet: &[u8]) -> (out: Vec<u8>)
    ensures
        out@ == transfer_report(packet@),
{
    let mut out: Vec<u8> = Vec::new();
    out.push(HID_REPORT_ID_TRANSFER);
    push_bytes(&mut out, packet);
    out
}

/// Builds one session for each file; the id of each is its position.
pub fn build_sessions(sources: &Vec<FileSource>) -> (files: Vec<TransferFile>)
    ensures
        files@.map_values(|f: TransferFile| f@) == sessions_of(sources@),
{
    let mut files: Vec<TransferFile> = Vec::new();
    let mut i: usize = 0;
    while i < sources.len()
        invariant
            i <= sources@.len(),
            files@.len() == i,
            forall|j: int|
                0 <= j < i ==> (#[trigger] files@[j])@ == new_transfer(
                    wrap16(j),
                    sources@[j].filename@,
                    sources@[j].content@,
                ),
        decreases sources@.len() - i,
    {
        let source = &sources[i];
        let file = TransferFile::new(
            (i % 65536) as u16,
            source.filename.as_str(),
            slice_to_vec(source.content.as_slice()),
        );
        files.push(file);
        i += 1;
    }
    files
}

/// One run of the firmware update.
pub struct UpdateRun {
    phase: UpdatePhase,
    files: Vec<TransferFile>,
    current: usize,
}

impl View for UpdateRun {
    type V = UpdateRunModel;

    closed spec fn view(&self) -> UpdateRunModel {
        UpdateRunModel {
            phase: self.phase,
            files: self.files@.map_values(|f: TransferFile| f@),
            current: self.current as nat,
        }
    }
}

impl UpdateRun {
    /// A run that has not begun.
    pub fn new() -> (r: Self)
        ensures
            r@ == (UpdateRunModel { phase: UpdatePhase::Idle, files: Seq::empty(), current: 0 }),
    {
        let r = UpdateRun { phase: UpdatePhase::Idle, files: Vec::new(), current: 0 };
        assert(r@.files =~= Seq::empty());
        r
    }

    /// What the machine waits for.
    pub fn phase(&self) -> (p: UpdatePhase)
        ensures
            p == self@.phase,
    {
        self.phase
    }

    /// Whether the update has ended.
    pub fn is_finished(&self) -> (b: bool)
        ensures
            b == (self@.phase == UpdatePhase::Finished),
    {
        self.phase == UpdatePhase::Finished
    }

    /// Number of sessions of the run.
    pub fn total_files(&self) -> (n: usize)
        ensures
            n == self@.files.len(),
    {
        self.files.len()
    }

    /// The position of the session that is being transferred.
    pub fn current_file(&self) -> (n: usize)
        ensures
            n == self@.current,
    {
        self.current
    }

    /// Turns to the first session from the current one on that is not
    /// complete.
    fn turn_to_next(&mut self) -> (action: UpdateAction)
        ensures
            old(self)@.turns_to_next(final(self)@, action),
    {
        let ghost files = self@.files;
        let ghost p = |f: TransferModel| !all_acked(f.chunks);
        let mut k: usize = self.current;
        while k < self.files.len() && self.files[k].is_complete()
            invariant
                *self == *old(self),
                files == self@.files,
                p == |f: TransferModel| !all_acked(f.chunks),
                self.current <= k,
                k <= self.files@.len() || k == self.current,
                first_index(files, p, self.current as int) == first_index(files, p, k as int),
            decreases self.files@.len() - k,
        {
            k += 1;
        }
        if k < self.files.len() {
            self.current = k;
            self.phase = UpdatePhase::Polling;
            UpdateAction::Read { capacity: READ_CAPACITY, timeout_millis: READ_TIMEOUT_MILLIS }
        } else {
            self.phase = UpdatePhase::CompleteSettle;
            UpdateAction::Sleep(STATE_CHANGE_SLEEP_MILLIS)
        }
    }

    /// Applies what a read has brought and sends the next chunk.
    fn handle_read(&mut self, data: Option<&[u8]>) -> (action: UpdateAction)
        ensures
            old(self)@.after_read(
                match data {
                    Some(d) => Some(d@),
                    None => None,
                },
                final(self)@,
                action,
            ),
    {
        if self.current >= self.files.len() {
            return self.turn_to_next();
        }
        let ghost before = self@.files;
        let ghost view = match data {
            Some(d) => Some(d@),
            None => None,
        };
        match data {
            Some(d) => {
                match parse_hid_update_message(d) {
                    Some(HidUpdateMessage::ChunkAck(ack)) => {
                        self.files[self.current].acknowledge_chunk(&ack);
                    },
                    Some(HidUpdateMessage::Error(error)) => {
                        self.phase = UpdatePhase::Finished;
                        return UpdateAction::Finish(Err(UpdateError::DeviceError(error.info)));
                    },
                    _ => {},
                }
            },
            None => {},
        }
        assert(self@.files =~= before.update(
            self.current as int,
            polled(before[self.current as int], view),
        ));
        let report = match self.files[self.current].get_next_chunk() {
            Some(chunk) => Some(build_transfer_report(chunk.packet().as_slice())),
            None => None,
        };
        match report {
            Some(report) => {
                self.phase = UpdatePhase::ChunkWrite;
                UpdateAction::Write(report)
            },
            None => self.turn_to_next(),
        }
    }

    /// Takes the outcome of the last action and returns the next action.
    /// An event that the machine does not wait for changes nothing.
    pub fn step(&mut self, event: UpdateEvent) -> (action: UpdateAction)
        ensures
            old(self)@.step(event, final(self)@, action),
    {
        match (self.phase, event) {
            (UpdatePhase::Idle, UpdateEvent::Start) => {
                self.phase = UpdatePhase::PrepareWrite;
                UpdateAction::Write(build_command_report(HID_COMMAND_PREPARE_UPDATE))
            },
            (UpdatePhase::PrepareWrite, UpdateEvent::WriteDone) => {
                self.phase = UpdatePhase::PrepareSettle;
                UpdateAction::Sleep(STATE_CHANGE_SLEEP_MILLIS)
            },
            (UpdatePhase::PrepareSettle, UpdateEvent::SleepDone) => {
                self.phase = UpdatePhase::Loading;
                UpdateAction::LoadFiles
            },
            (UpdatePhase::Loading, UpdateEvent::FilesLoaded(sources)) => {
                self.files = build_sessions(&sources);
                self.current = 0;
                self.turn_to_next()
            },
            (UpdatePhase::Loading, UpdateEvent::FilesFailed(error)) => {
                self.phase = UpdatePhase::Finished;
                UpdateAction::Finish(Err(error))
            },
            (UpdatePhase::Polling, UpdateEvent::ReadDone { buffer, size }) => {
                if size > 0 && buffer.len() >= 1 {
                    let data = slice_subrange(buffer.as_slice(), 1, buffer.len());
                    self.handle_read(Some(data))
                } else {
                    self.handle_read(None)
                }
            },
            (UpdatePhase::Polling, UpdateEvent::ReadFailed(_)) => self.handle_read(None),
            (UpdatePhase::ChunkWrite, UpdateEvent::WriteDone) => self.turn_to_next(),
            (UpdatePhase::CompleteSettle, UpdateEvent::SleepDone) => {
                self.phase = UpdatePhase::CompleteWrite;
                let completed = Completed::new();
                UpdateAction::Write(build_transfer_report(completed.inner().packet().as_slice()))
            },
            (UpdatePhase::CompleteWrite, UpdateEvent::WriteDone) => {
                self.phase = UpdatePhase::ResetSettle;
                UpdateAction::Sleep(STATE_CHANGE_SLEEP_MILLIS)
            },
            (UpdatePhase::ResetSettle, UpdateEvent::SleepDone) => {
                self.phase = UpdatePhase::ResetWrite;
                UpdateAction::Write(build_command_report(HID_COMMAND_RESET))
            },
            (UpdatePhase::ResetWrite, UpdateEvent::WriteDone) => {
                self.phase = UpdatePhase::Finished;
                UpdateAction::Finish(Ok(()))
            },
            (UpdatePhase::PrepareWrite, UpdateEvent::WriteFailed(message))
            | (UpdatePhase::ChunkWrite, UpdateEvent::WriteFailed(message))
            | (UpdatePhase::CompleteWrite, UpdateEvent::WriteFailed(message))
            | (UpdatePhase::ResetWrite, UpdateEvent::WriteFailed(message)) => {
                self.phase = UpdatePhase::Finished;
                UpdateAction::Finish(Err(UpdateError::WriteFailed(message)))
            },
            _ => UpdateAction::Ignored,
        }
    }
}

impl UpdateRunModel {
    /// What holds of the machine at every step: sessions are transferred
    /// in their order, so every session before the current one is complete;
    /// while a session is being transferred the current one exists; and
    /// once the machine has turned to the completion marker every session
    /// is complete.
    pub open spec fn in_order(self) -> bool {
        &&& self.phase == UpdatePhase::Polling || self.phase == UpdatePhase::ChunkWrite
            ==> self.current < self.files.len()
        &&& self.phase == UpdatePhase::Polling || self.phase == UpdatePhase::ChunkWrite
            ==> forall|i: int| 0 <= i < self.current ==> all_acked(#[trigger] self.files[i].chunks)
        &&& self.phase == UpdatePhase::CompleteSettle || self.phase == UpdatePhase::CompleteWrite
            || self.phase == UpdatePhase::ResetSettle || self.phase == UpdatePhase::ResetWrite
            ==> forall|i: int|
            0 <= i < self.files.len() ==> all_acked(#[trigger] self.files[i].chunks)
    }
}

/// A machine that turns to the next session keeps the order, if every
/// session before the current one is complete.
proof fn lemma_turn_keeps_order(pre: UpdateRunModel, post: UpdateRunModel, action: UpdateAction)
    requires
        pre.turns_to_next(post, action),
        forall|i: int|
            0 <= i < pre.current && i < pre.files.len() ==> all_acked(
                #[trigger] pre.files[i].chunks,
            ),
    ensures
        post.in_order(),
{
    if pre.current <= pre.files.len() {
        lemma_first_index(pre.files, |f: TransferModel| !all_acked(f.chunks), pre.current as int);
    }
}

/// Every step keeps the order of the transfer: no session is skipped, a
/// chunk is written only for a session that exists, and the completion
/// marker follows only when every session is complete.
pub proof fn lemma_step_keeps_order(
    pre: UpdateRunModel,
    event: UpdateEvent,
    post: UpdateRunModel,
    action: UpdateAction,
)
    requires
        pre.in_order(),
        pre.step(event, post, action),
    ensures
        post.in_order(),
{
    match (pre.phase, event) {
        (UpdatePhase::Loading, UpdateEvent::FilesLoaded(sources)) => {
            lemma_turn_keeps_order(
                UpdateRunModel { files: sessions_of(sources@), current: 0, ..pre },
                post,
                action,
            );
        },
        (UpdatePhase::Polling, UpdateEvent::ReadDone { buffer, size }) => {
            lemma_read_keeps_order(pre, notification(buffer@, size), post, action);
        },
        (UpdatePhase::Polling, UpdateEvent::ReadFailed(_)) => {
            lemma_read_keeps_order(pre, None, post, action);
        },
        (UpdatePhase::ChunkWrite, UpdateEvent::WriteDone) => {
            lemma_turn_keeps_order(pre, post, action);
        },
        _ => {},
    }
}

/// A machine that has read keeps the order.
proof fn lemma_read_keeps_order(
    pre: UpdateRunModel,
    data: Option<Seq<u8>>,
    post: UpdateRunModel,
    action: UpdateAction,
)
    requires
        pre.in_order(),
        pre.phase == UpdatePhase::Polling,
        pre.after_read(data, post, action),
    ensures
        post.in_order(),
{
    if !is_device_error(data) {
        let file = polled(pre.files[pre.current as int], data);
        let files = pre.files.update(pre.current as int, file);
        if next_unacked(file.chunks) >= file.chunks.len() {
            lemma_turn_keeps_order(UpdateRunModel { files, ..pre }, post, action);
        }
    }
}

} // verus!
