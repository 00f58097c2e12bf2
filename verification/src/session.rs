use vstd::prelude::*;
use crate::bytes::{append_bytes, clone_bytes};
use crate::control::{control_file_seq, generate_control_file_and_name, job_name_seq};
use crate::decimal::{decimal_bytes, decimal_digits};
use crate::error::LprError;

verus! {

/// One print submission: the control-file text, the job name both
/// subcommands repeat, and the payload bytes. All three are fixed when
/// the job is made and reused unchanged by every step.
pub struct PrintJob {
    pub control_file: Vec<u8>,
    pub job_name: Vec<u8>,
    pub payload: Vec<u8>,
}

impl PrintJob {
    /// Generates the control file and job name for the given origin and
    /// pairs them with the payload.
    pub fn new(host: &Vec<u8>, user: &Vec<u8>, pid: u32, payload: Vec<u8>) -> (r: PrintJob)
        ensures
            r.control_file@ == control_file_seq(host@, user@, pid as nat),
            r.job_name@ == job_name_seq(pid as nat, host@),
            r.payload@ == payload@,
    {
        let (control_file, job_name) = generate_control_file_and_name(host, user, pid);
        PrintJob { control_file, job_name, payload }
    }
}

/// The states of the submission machine, strictly ordered, with the two
/// terminal outcomes. Each non-terminal state issues one write; every
/// write but the payload's is answered by one acknowledgment byte.
#[derive(Debug, Clone, Copy, PartialEq, Eq, Structural)]
pub enum SessionState {
    Idle,
    JobAccepted,
    ControlSubcommandAccepted,
    ControlFileAccepted,
    DataSubcommandAccepted,
    DataWritten,
    Done,
    Failed,
}

/// The receive-job command: `0x02`, then the literal queue request `"lp\n"`.
pub open spec fn receive_job_frame_seq() -> Seq<u8> {
    seq![2u8, 108u8, 112u8, 10u8]
}

/// The control-file subcommand: `0x02`, the decimal length of the
/// control-file text, then `" c"`, the job name, and a newline.
pub open spec fn control_subcommand_seq(cf_len: nat, name: Seq<u8>) -> Seq<u8> {
    seq![2u8] + decimal_digits(cf_len) + seq![32u8, 99u8] + name + seq![10u8]
}

/// The control-file frame: the text followed by a single NUL terminator.
pub open spec fn control_file_frame_seq(cf: Seq<u8>) -> Seq<u8> {
    cf + seq![0u8]
}

/// The data-file subcommand: `0x03`, the decimal length of the payload,
/// then `" d"`, the job name, and a newline.
pub open spec fn data_subcommand_seq(len: nat, name: Seq<u8>) -> Seq<u8> {
    seq![3u8] + decimal_digits(len) + seq![32u8, 100u8] + name + seq![10u8]
}

/// The six writes of one submission, in the only order the protocol
/// allows: receive-job command, control-file subcommand, control file,
/// data-file subcommand, payload, end-of-transfer marker.
pub open spec fn session_frames(job: PrintJob) -> Seq<Seq<u8>> {
    seq![
        receive_job_frame_seq(),
        control_subcommand_seq(job.control_file@.len(), job.job_name@),
        control_file_frame_seq(job.control_file@),
        data_subcommand_seq(job.payload@.len(), job.job_name@),
        job.payload@,
        seq![0u8],
    ]
}

/// What a session writes while in a state: one frame per non-terminal
/// state, nothing once done or failed.
pub open spec fn state_write(job: PrintJob, s: SessionState) -> Option<Seq<u8>> {
    match s {
        SessionState::Idle => Some(receive_job_frame_seq()),
        SessionState::JobAccepted => Some(
            control_subcommand_seq(job.control_file@.len(), job.job_name@),
        ),
        SessionState::ControlSubcommandAccepted => Some(control_file_frame_seq(job.control_file@)),
        SessionState::ControlFileAccepted => Some(
            data_subcommand_seq(job.payload@.len(), job.job_name@),
        ),
        SessionState::DataSubcommandAccepted => Some(job.payload@),
        SessionState::DataWritten => Some(seq![0u8]),
        SessionState::Done => None,
        SessionState::Failed => None,
    }
}

/// Whether the state's write is answered by an acknowledgment byte. The
/// payload write is not: its size was already declared by the framing.
pub open spec fn state_awaits_ack(s: SessionState) -> bool {
    match s {
        SessionState::DataSubcommandAccepted => false,
        SessionState::Done => false,
        SessionState::Failed => false,
        _ => true,
    }
}

/// The state a successful step leads to.
pub open spec fn state_next(s: SessionState) -> SessionState {
    match s {
        SessionState::Idle => SessionState::JobAccepted,
        SessionState::JobAccepted => SessionState::ControlSubcommandAccepted,
        SessionState::ControlSubcommandAccepted => SessionState::ControlFileAccepted,
        SessionState::ControlFileAccepted => SessionState::DataSubcommandAccepted,
        SessionState::DataSubcommandAccepted => SessionState::DataWritten,
        SessionState::DataWritten => SessionState::Done,
        SessionState::Done => SessionState::Done,
        SessionState::Failed => SessionState::Failed,
    }
}

/// Builds the receive-job command frame.
pub fn receive_job_frame() -> (r: Vec<u8>)
    ensures
        r@ == receive_job_frame_seq(),
{
    let mut v: Vec<u8> = Vec::new();
    v.push(2);
    v.push(108);
    v.push(112);
    v.push(10);
    proof {
        assert(v@ =~= receive_job_frame_seq());
    }
    v
}

/// Builds the control-file subcommand frame for the job.
pub fn control_subcommand_frame(job: &PrintJob) -> (r: Vec<u8>)
    ensures
        r@ == control_subcommand_seq(job.control_file@.len(), job.job_name@),
{
    let mut v: Vec<u8> = Vec::new();
    v.push(2);
    let digits = decimal_bytes(job.control_file.len() as u64);
    append_bytes(&mut v, &digits);
    v.push(32);
    v.push(99);
    append_bytes(&mut v, &job.job_name);
    v.push(10);
    proof {
        assert(v@ =~= control_subcommand_seq(job.control_file@.len(), job.job_name@));
    }
    v
}

/// Builds the control-file frame: the text and its NUL terminator.
pub fn control_file_frame(job: &PrintJob) -> (r: Vec<u8>)
    ensures
        r@ == control_file_frame_seq(job.control_file@),
{
    let mut v: Vec<u8> = Vec::new();
    append_bytes(&mut v, &job.control_file);
    v.push(0);
    proof {
        assert(v@ =~= control_file_frame_seq(job.control_file@));
    }
    v
}

/// Builds the data-file subcommand frame for the job.
pub fn data_subcommand_frame(job: &PrintJob) -> (r: Vec<u8>)
    ensures
        r@ == data_subcommand_seq(job.payload@.len(), job.job_name@),
{
    let mut v: Vec<u8> = Vec::new();
    v.push(3);
    let digits = decimal_bytes(job.payload.len() as u64);
    append_bytes(&mut v, &digits);
    v.push(32);
    v.push(100);
    append_bytes(&mut v, &job.job_name);
    v.push(10);
    proof {
        assert(v@ =~= data_subcommand_seq(job.payload@.len(), job.job_name@));
    }
    v
}

/// Builds the single-byte end-of-transfer marker.
pub fn end_of_transfer_frame() -> (r: Vec<u8>)
    ensures
        r@ == seq![0u8],
{
    let mut v: Vec<u8> = Vec::new();
    v.push(0);
    proof {
        assert(v@ =~= seq![0u8]);
    }
    v
}

/// One job submission in flight: the fixed job and where the machine
/// stands. The caller performs the transport I/O; this type decides what
/// to write next and what each acknowledgment means.
pub struct Session {
    pub job: PrintJob,
    pub state: SessionState,
}

impl Session {
    /// A fresh session for the job, ready to issue the first command.
    pub fn new(job: PrintJob) -> (s: Session)
        ensures
            s.job == job,
            s.state == SessionState::Idle,
    {
        Session { job, state: SessionState::Idle }
    }

    /// The bytes to write in the current state, or nothing once the
    /// session is done or failed.
    pub fn next_write(&self) -> (r: Option<Vec<u8>>)
        ensures
            (match r {
                Some(v) => state_write(self.job, self.state) == Some(v@),
                None => state_write(self.job, self.state) is None,
            }),
    {
        match self.state {
            SessionState::Idle => Some(receive_job_frame()),
            SessionState::JobAccepted => Some(control_subcommand_frame(&self.job)),
            SessionState::ControlSubcommandAccepted => Some(control_file_frame(&self.job)),
            SessionState::ControlFileAccepted => Some(data_subcommand_frame(&self.job)),
            SessionState::DataSubcommandAccepted => Some(clone_bytes(&self.job.payload)),
            SessionState::DataWritten => Some(end_of_transfer_frame()),
            SessionState::Done => None,
            SessionState::Failed => None,
        }
    }

    /// Whether the write of the current state is answered by an
    /// acknowledgment byte.
    pub fn awaits_ack(&self) -> (r: bool)
        ensures
            r == state_awaits_ack(self.state),
    {
        match self.state {
            SessionState::DataSubcommandAccepted => false,
            SessionState::Done => false,
            SessionState::Failed => false,
            _ => true,
        }
    }

    /// Records that the payload went out; no acknowledgment follows it.
    pub fn payload_written(&mut self)
        requires
            old(self).state == SessionState::DataSubcommandAccepted,
        ensures
            final(self).job == old(self).job,
            final(self).state == SessionState::DataWritten,
    {
        self.state = SessionState::DataWritten;
    }

    /// Judges one acknowledgment byte: zero advances the machine to the
    /// next state; anything else fails the session — it returns the
    /// offending byte in `ProtocolAckError` and no further write is
    /// issued for this job.
    pub fn record_ack(&mut self, ack: u8) -> (r: Result<(), LprError>)
        requires
            state_awaits_ack(old(self).state),
        ensures
            final(self).job == old(self).job,
            ack == 0 ==> r is Ok && final(self).state == state_next(old(self).state),
            ack != 0 ==> r == Err::<(), LprError>(LprError::ProtocolAckError(ack))
                && final(self).state == SessionState::Failed,
    {
        if ack != 0 {
            self.state = SessionState::Failed;
            Err(LprError::ProtocolAckError(ack))
        } else {
            self.state = match self.state {
                SessionState::Idle => SessionState::JobAccepted,
                SessionState::JobAccepted => SessionState::ControlSubcommandAccepted,
                SessionState::ControlSubcommandAccepted => SessionState::ControlFileAccepted,
                SessionState::ControlFileAccepted => SessionState::DataSubcommandAccepted,
                SessionState::DataSubcommandAccepted => SessionState::DataWritten,
                SessionState::DataWritten => SessionState::Done,
                SessionState::Done => SessionState::Done,
                SessionState::Failed => SessionState::Failed,
            };
            Ok(())
        }
    }

    /// Whether the whole submission has been acknowledged.
    pub fn is_done(&self) -> (r: bool)
        ensures
            r == (self.state == SessionState::Done),
    {
        match self.state {
            SessionState::Done => true,
            _ => false,
        }
    }
}

/// The views of a sequence of byte vectors.
pub open spec fn seq_views(ws: Seq<Vec<u8>>) -> Seq<Seq<u8>> {
    ws.map_values(|v: Vec<u8>| v@)
}

/// The index of the first non-zero byte among the five acknowledgments,
/// looking from position `i` on, or 5 when all five are zero.
pub open spec fn first_bad_ack(acks: Seq<u8>, i: int) -> int
    decreases 5 - i,
{
    if i >= 5 {
        5
    } else if acks[i] != 0 {
        i
    } else {
        first_bad_ack(acks, i + 1)
    }
}

/// How many frames go out when the first non-zero acknowledgment has
/// index `k` (5 when all are zero): the frame each of the first four
/// acknowledgments answers is the last one written, while the payload
/// carries no acknowledgment, so the final acknowledgment comes only
/// after all six frames are out.
pub open spec fn frames_written_count(k: int) -> int {
    if k <= 3 {
        k + 1
    } else {
        6
    }
}

/// Every write a submission issues when the server answers with the
/// given acknowledgment bytes: the frames in order, cut off where the
/// first non-zero acknowledgment halts the machine.
pub open spec fn session_writes(job: PrintJob, acks: Seq<u8>) -> Seq<Seq<u8>> {
    session_frames(job).take(frames_written_count(first_bad_ack(acks, 0)))
}

/// The outcome of a submission under the given acknowledgment bytes:
/// success when all five are zero, otherwise the first offending byte.
pub open spec fn session_outcome(acks: Seq<u8>) -> Result<(), LprError> {
    let k = first_bad_ack(acks, 0);
    if k == 5 {
        Ok(())
    } else {
        Err(LprError::ProtocolAckError(acks[k]))
    }
}

proof fn lemma_first_bad_ack_found(acks: Seq<u8>, j: int, k: int)
    requires
        0 <= j <= k < 5,
        acks.len() >= 5,
        acks[k] != 0,
        forall|i: int| j <= i < k ==> acks[i] == 0,
    ensures
        first_bad_ack(acks, j) == k,
    decreases k - j,
{
    if j < k {
        lemma_first_bad_ack_found(acks, j + 1, k);
    }
}

proof fn lemma_first_bad_ack_none(acks: Seq<u8>, j: int)
    requires
        0 <= j <= 5,
        acks.len() >= 5,
        forall|i: int| j <= i < 5 ==> acks[i] == 0,
    ensures
        first_bad_ack(acks, j) == 5,
    decreases 5 - j,
{
    if j < 5 {
        lemma_first_bad_ack_none(acks, j + 1);
    }
}

/// Runs one whole submission against acknowledgment bytes known in
/// advance, returning every write it issued and the outcome. This is the
/// submission machine itself with the transport replaced by its answers:
/// what it writes and returns is exactly what a caller interleaving real
/// I/O sees from `Session` on the same answers.
pub fn drive_print(job: PrintJob, acks: &Vec<u8>) -> (r: (Vec<Vec<u8>>, Result<(), LprError>))
    requires
        acks@.len() >= 5,
    ensures
        seq_views(r.0@) == session_writes(job, acks@),
        r.1 == session_outcome(acks@),
{
    let mut writes: Vec<Vec<u8>> = Vec::new();

    writes.push(receive_job_frame());
    let a0 = acks[0];
    if a0 != 0 {
        proof {
            lemma_first_bad_ack_found(acks@, 0, 0);
            assert(seq_views(writes@) =~= session_frames(job).take(1));
        }
        return (writes, Err(LprError::ProtocolAckError(a0)));
    }
    writes.push(control_subcommand_frame(&job));
    let a1 = acks[1];
    if a1 != 0 {
        proof {
            lemma_first_bad_ack_found(acks@, 0, 1);
            assert(seq_views(writes@) =~= session_frames(job).take(2));
        }
        return (writes, Err(LprError::ProtocolAckError(a1)));
    }
    writes.push(control_file_frame(&job));
    let a2 = acks[2];
    if a2 != 0 {
        proof {
            lemma_first_bad_ack_found(acks@, 0, 2);
            assert(seq_views(writes@) =~= session_frames(job).take(3));
        }
        return (writes, Err(LprError::ProtocolAckError(a2)));
    }
    writes.push(data_subcommand_frame(&job));
    let a3 = acks[3];
    if a3 != 0 {
        proof {
            lemma_first_bad_ack_found(acks@, 0, 3);
            assert(seq_views(writes@) =~= session_frames(job).take(4));
        }
        return (writes, Err(LprError::ProtocolAckError(a3)));
    }
    writes.push(clone_bytes(&job.payload));
    writes.push(end_of_transfer_frame());
    let a4 = acks[4];
    if a4 != 0 {
        proof {
            lemma_first_bad_ack_found(acks@, 0, 4);
            assert(seq_views(writes@) =~= session_frames(job).take(6));
        }
        return (writes, Err(LprError::ProtocolAckError(a4)));
    }
    proof {
        lemma_first_bad_ack_none(acks@, 0);
        assert(seq_views(writes@) =~= session_frames(job).take(6));
    }
    (writes, Ok(()))
}

/// The state in which the session issues its `i`-th write.
pub open spec fn nth_write_state(i: int) -> SessionState {
    if i == 0 {
        SessionState::Idle
    } else if i == 1 {
        SessionState::JobAccepted
    } else if i == 2 {
        SessionState::ControlSubcommandAccepted
    } else if i == 3 {
        SessionState::ControlFileAccepted
    } else if i == 4 {
        SessionState::DataSubcommandAccepted
    } else {
        SessionState::DataWritten
    }
}

/// Law: the session issues its writes in the one fixed order, whatever
/// the payload (a zero-length payload included): from the idle state
/// each successful step leads to the next writing state, and the write
/// of the `i`-th state is the `i`-th frame.
pub proof fn lemma_writes_in_fixed_order(job: PrintJob)
    ensures
        forall|i: int|
            0 <= i < 6 ==> state_write(job, nth_write_state(i)) == Some(session_frames(job)[i]),
        forall|i: int| 0 <= i < 5 ==> state_next(nth_write_state(i)) == nth_write_state(i + 1),
        state_next(nth_write_state(5)) == SessionState::Done,
{
}

/// Law: when the server acknowledges every step with zero, the
/// submission writes exactly the six frames, in order, and succeeds.
pub proof fn lemma_all_acks_zero_full_run(job: PrintJob, acks: Seq<u8>)
    requires
        acks.len() >= 5,
        forall|i: int| 0 <= i < 5 ==> acks[i] == 0,
    ensures
        session_writes(job, acks) == session_frames(job),
        session_outcome(acks) == Ok::<(), LprError>(()),
{
    lemma_first_bad_ack_none(acks, 0);
    assert(session_frames(job).take(6) =~= session_frames(job));
}

/// Law: a non-zero acknowledgment byte at any step yields
/// `ProtocolAckError` carrying that byte and halts further writes for
/// the job: nothing beyond the frame that byte answered goes out.
pub proof fn lemma_nonzero_ack_halts(job: PrintJob, acks: Seq<u8>, k: int)
    requires
        acks.len() >= 5,
        0 <= k < 5,
        acks[k] != 0,
        forall|i: int| 0 <= i < k ==> acks[i] == 0,
    ensures
        session_outcome(acks) == Err::<(), LprError>(LprError::ProtocolAckError(acks[k])),
        session_writes(job, acks) == session_frames(job).take(frames_written_count(k)),
        k <= 3 ==> session_writes(job, acks).len() == k + 1 < 6,
{
    lemma_first_bad_ack_found(acks, 0, k);
}

} // verus!
