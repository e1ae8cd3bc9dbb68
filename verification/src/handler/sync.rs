use crate::database::commit::{texts, Commit, CommitModel};
use crate::database::oid::{is_oid_text, oid_bytes_of, zero_bytes, SqlOid};
use crate::error::SyncError;
use crate::handler::bytes::{
    ascii_bytes, decimal_value, find_byte, index_of, is_numeral, is_word, lemma_find_byte,
    parse_decimal, utf8_text, COLON, CR, LF, SP,
};
use vstd::prelude::*;
use vstd::slice::*;
use vstd::utf8::*;

pub use crate::handler::refs::RefsExportIter;

verus! {

/// What one line of the exporter's output says.
#[derive(Debug, Clone, PartialEq)]
pub enum ParseLine {
    /// The record is a commit.
    IsCommit,
    /// So many bytes of payload follow and are passed over.
    SkipMessage(usize),
    /// The mark of the first parent.
    ParentMark(i64),
    /// The mark of the commit.
    CommitMark(i64),
    /// The content hash of the commit.
    CommitHash(SqlOid),
    /// A path that the commit touches.
    ChangeFile(String),
    /// The blank line that ends a record.
    PartDone,
    /// A line that says nothing of interest.
    Continue,
}

/// The mathematical value of a [`ParseLine`].
pub enum LineModel {
    IsCommit,
    SkipMessage(usize),
    ParentMark(i64),
    CommitMark(i64),
    CommitHash(Seq<u8>),
    ChangeFile(Seq<char>),
    PartDone,
    Continue,
}

impl View for ParseLine {
    type V = LineModel;

    open spec fn view(&self) -> LineModel {
        match *self {
            ParseLine::IsCommit => LineModel::IsCommit,
            ParseLine::SkipMessage(n) => LineModel::SkipMessage(n),
            ParseLine::ParentMark(n) => LineModel::ParentMark(n),
            ParseLine::CommitMark(n) => LineModel::CommitMark(n),
            ParseLine::CommitHash(h) => LineModel::CommitHash(h@),
            ParseLine::ChangeFile(f) => LineModel::ChangeFile(f@),
            ParseLine::PartDone => LineModel::PartDone,
            ParseLine::Continue => LineModel::Continue,
        }
    }
}

/// The number of a mark written as a colon and a decimal numeral that fits
/// in sixty-four signed bits.
pub open spec fn mark_value(rest: Seq<u8>) -> Option<i64> {
    if rest.len() > 0 && rest[0] == COLON && is_numeral(rest.skip(1)) && decimal_value(
        rest.skip(1),
    ) <= i64::MAX {
        Some(decimal_value(rest.skip(1)) as i64)
    } else {
        None
    }
}

/// The count of a payload written as a decimal numeral that fits in a `usize`.
pub open spec fn count_value(rest: Seq<u8>) -> Option<usize> {
    if is_numeral(rest) && decimal_value(rest) <= usize::MAX {
        Some(decimal_value(rest) as usize)
    } else {
        None
    }
}

/// The hash that well-formed hash text denotes.
pub open spec fn hash_value(rest: Seq<u8>) -> Option<Seq<u8>> {
    if valid_utf8(rest) && is_oid_text(decode_utf8(rest)) {
        Some(oid_bytes_of(decode_utf8(rest)))
    } else {
        None
    }
}

/// The path of a file change: what follows the second space of
/// `MODE SP SHA SP PATH`, where it is not empty and is well-formed UTF-8.
pub open spec fn path_value(rest: Seq<u8>) -> Option<Seq<char>> {
    let first = find_byte(rest, SP, 0);
    let second = find_byte(rest, SP, first + 1);
    let path = rest.skip(second + 1);
    if first < rest.len() && second < rest.len() && path.len() > 0 && valid_utf8(path) {
        Some(decode_utf8(path))
    } else {
        None
    }
}

/// The record grammar, line by line. An empty line ends the record. Any other
/// line is a token, a space and the rest; the token says how the rest is read.
pub open spec fn spec_parse_line(line: Seq<u8>) -> Result<LineModel, SyncError> {
    let space = find_byte(line, SP, 0);
    let token = line.take(space);
    let rest = line.skip(space + 1);
    if line.len() == 0 {
        Ok(LineModel::PartDone)
    } else if space >= line.len() {
        Err(SyncError::ExporterMalformed)
    } else if token == ascii_bytes("commit"@) {
        Ok(LineModel::IsCommit)
    } else if token == ascii_bytes("mark"@) {
        match mark_value(rest) {
            Some(n) => Ok(LineModel::CommitMark(n)),
            None => Err(SyncError::ExporterMalformed),
        }
    } else if token == ascii_bytes("original-oid"@) {
        match hash_value(rest) {
            Some(h) => Ok(LineModel::CommitHash(h)),
            None => Err(SyncError::BadHash),
        }
    } else if token == ascii_bytes("data"@) {
        match count_value(rest) {
            Some(n) => Ok(LineModel::SkipMessage(n)),
            None => Err(SyncError::ExporterMalformed),
        }
    } else if token == ascii_bytes("from"@) {
        match mark_value(rest) {
            Some(n) => Ok(LineModel::ParentMark(n)),
            None => Err(SyncError::ExporterMalformed),
        }
    } else if token == ascii_bytes("M"@) {
        match path_value(rest) {
            Some(p) => Ok(LineModel::ChangeFile(p)),
            None => Err(SyncError::ExporterMalformed),
        }
    } else {
        Ok(LineModel::Continue)
    }
}

/// Whether a parsed line is the one the grammar gives.
pub open spec fn line_is(got: Result<ParseLine, SyncError>, want: Result<LineModel, SyncError>) -> bool {
    match (got, want) {
        (Ok(line), Ok(model)) => line@ == model,
        (Err(e), Err(f)) => e == f,
        _ => false,
    }
}

/// Reads a mark: a colon and a decimal numeral.
pub fn parse_mark(rest: &[u8]) -> (r: Option<i64>)
    ensures
        r == mark_value(rest@),
{
    if rest.len() == 0 || rest[0] != COLON {
        return None;
    }
    let digits = slice_subrange(rest, 1, rest.len());
    assert(digits@ =~= rest@.skip(1));
    match parse_decimal(digits, 0x7fff_ffff_ffff_ffff) {
        Some(v) => Some(v as i64),
        None => None,
    }
}

/// Reads the length of a payload: a decimal numeral.
pub fn parse_count(rest: &[u8]) -> (r: Option<usize>)
    ensures
        r == count_value(rest@),
{
    match parse_decimal(rest, usize::MAX as u64) {
        Some(v) => Some(v as usize),
        None => None,
    }
}

/// Reads a content hash from its text form.
pub fn parse_hash(rest: &[u8]) -> (r: Option<SqlOid>)
    ensures
        r is Some <==> hash_value(rest@) is Some,
        r matches Some(h) ==> Some(h@) == hash_value(rest@),
{
    match utf8_text(rest) {
        Some(text) => match SqlOid::from_str(text.as_str()) {
            Ok(h) => Some(h),
            Err(_) => None,
        },
        None => None,
    }
}

/// Reads the path of a file change, `MODE SP SHA SP PATH`.
pub fn parse_file(rest: &[u8]) -> (r: Option<String>)
    ensures
        r is Some <==> path_value(rest@) is Some,
        r matches Some(p) ==> Some(p@) == path_value(rest@),
{
    let first = index_of(rest, SP, 0);
    if first >= rest.len() {
        return None;
    }
    let second = index_of(rest, SP, first + 1);
    if second >= rest.len() {
        return None;
    }
    let path = slice_subrange(rest, second + 1, rest.len());
    assert(path@ =~= rest@.skip(second + 1));
    if path.len() == 0 {
        return None;
    }
    utf8_text(path)
}

/// Reads one line, without its line ending.
pub fn parse_line(line: &[u8]) -> (r: Result<ParseLine, SyncError>)
    ensures
        line_is(r, spec_parse_line(line@)),
{
    if line.len() == 0 {
        return Ok(ParseLine::PartDone);
    }
    let space = index_of(line, SP, 0);
    if space >= line.len() {
        return Err(SyncError::ExporterMalformed);
    }
    let token = slice_subrange(line, 0, space);
    let rest = slice_subrange(line, space + 1, line.len());
    assert(token@ =~= line@.take(space as int));
    assert(rest@ =~= line@.skip(space + 1));
    proof {
        reveal_strlit("commit");
        reveal_strlit("mark");
        reveal_strlit("original-oid");
        reveal_strlit("data");
        reveal_strlit("from");
        reveal_strlit("M");
    }
    if is_word(token, "commit") {
        Ok(ParseLine::IsCommit)
    } else if is_word(token, "mark") {
        match parse_mark(rest) {
            Some(n) => Ok(ParseLine::CommitMark(n)),
            None => Err(SyncError::ExporterMalformed),
        }
    } else if is_word(token, "original-oid") {
        match parse_hash(rest) {
            Some(h) => Ok(ParseLine::CommitHash(h)),
            None => Err(SyncError::BadHash),
        }
    } else if is_word(token, "data") {
        match parse_count(rest) {
            Some(n) => Ok(ParseLine::SkipMessage(n)),
            None => Err(SyncError::ExporterMalformed),
        }
    } else if is_word(token, "from") {
        match parse_mark(rest) {
            Some(n) => Ok(ParseLine::ParentMark(n)),
            None => Err(SyncError::ExporterMalformed),
        }
    } else if is_word(token, "M") {
        match parse_file(rest) {
            Some(p) => Ok(ParseLine::ChangeFile(p)),
            None => Err(SyncError::ExporterMalformed),
        }
    } else {
        Ok(ParseLine::Continue)
    }
}

/// The mathematical value of a [`CommitExportIter`]: what has been gathered
/// of the record being read.
pub struct RecordState {
    pub repo_id: i64,
    /// Whether the record is a commit.
    pub is_commit: bool,
    /// How many bytes of payload are still to be passed over.
    pub skip_size: usize,
    /// The mark of the first parent; zero where none was read.
    pub parent_mark: i64,
    /// The mark of the commit; zero where none was read.
    pub commit_mark: i64,
    /// The hash of the commit; all zero where none was read.
    pub commit_hash: Seq<u8>,
    /// Whether a hash was read for this record.
    pub has_hash: bool,
    pub files: Seq<Seq<char>>,
    /// Whether a malformed line has ended the stream.
    pub failed: bool,
}

/// What the parser hands out after a chunk of input.
pub enum Step {
    /// Nothing yet: the record goes on.
    Pending,
    /// A finished commit.
    Emit(CommitModel),
    /// The stream ends here with an error.
    Fail(SyncError),
}

/// A chunk without its line ending: a line feed at the end is dropped, and
/// a carriage return before that line feed too.
pub open spec fn trim_line(chunk: Seq<u8>) -> Seq<u8> {
    if chunk.len() > 0 && chunk.last() == LF {
        let line = chunk.drop_last();
        if line.len() > 0 && line.last() == CR {
            line.drop_last()
        } else {
            line
        }
    } else {
        chunk
    }
}

/// The state in which a new record starts.
pub open spec fn cleared(st: RecordState) -> RecordState {
    RecordState {
        repo_id: st.repo_id,
        is_commit: false,
        skip_size: 0,
        parent_mark: 0,
        commit_mark: 0,
        commit_hash: zero_bytes(),
        has_hash: false,
        files: Seq::empty(),
        failed: false,
    }
}

/// The commit that a finished record describes. A parent mark of zero means
/// that the commit is a root.
pub open spec fn commit_of(st: RecordState) -> CommitModel {
    CommitModel {
        commit_id: None,
        commit_hash: st.commit_hash,
        commit_mark: st.commit_mark,
        parent_mark: if st.parent_mark == 0 {
            None
        } else {
            Some(st.parent_mark)
        },
        repo_id: st.repo_id,
        depth: None,
        files: st.files,
    }
}

/// What a line does to the record being read. The blank line ends the
/// record: a record that is no commit is dropped, a commit for which a hash
/// was read is handed out, whatever the hash, and a commit without a hash is
/// refused with `BadHash`.
pub open spec fn apply_line(st: RecordState, line: Result<LineModel, SyncError>) -> (
    RecordState,
    Step,
) {
    match line {
        Err(e) => (RecordState { failed: true, ..st }, Step::Fail(e)),
        Ok(LineModel::IsCommit) => (RecordState { is_commit: true, ..st }, Step::Pending),
        Ok(LineModel::SkipMessage(n)) => (RecordState { skip_size: n, ..st }, Step::Pending),
        Ok(LineModel::ParentMark(n)) => (RecordState { parent_mark: n, ..st }, Step::Pending),
        Ok(LineModel::CommitMark(n)) => (RecordState { commit_mark: n, ..st }, Step::Pending),
        Ok(LineModel::CommitHash(h)) => (
            RecordState { commit_hash: h, has_hash: true, ..st },
            Step::Pending,
        ),
        Ok(LineModel::ChangeFile(f)) => (
            RecordState { files: st.files.push(f), ..st },
            Step::Pending,
        ),
        Ok(LineModel::Continue) => (st, Step::Pending),
        Ok(LineModel::PartDone) => if !st.is_commit {
            (cleared(st), Step::Pending)
        } else if !st.has_hash {
            (RecordState { failed: true, ..cleared(st) }, Step::Fail(SyncError::BadHash))
        } else {
            (cleared(st), Step::Emit(commit_of(st)))
        },
    }
}

/// What one chunk of input does: a chunk is what one read up to and
/// including the next line feed delivers. While payload is being passed over,
/// a chunk no longer than what remains is payload altogether. Otherwise what
/// lies beyond the payload is a line.
pub open spec fn spec_feed(st: RecordState, chunk: Seq<u8>) -> (RecordState, Step) {
    if st.failed || chunk.len() == 0 {
        (st, Step::Pending)
    } else if st.skip_size != 0 && chunk.len() <= st.skip_size {
        (RecordState { skip_size: (st.skip_size - chunk.len()) as usize, ..st }, Step::Pending)
    } else {
        apply_line(
            RecordState { skip_size: 0, ..st },
            spec_parse_line(trim_line(chunk.skip(st.skip_size as int))),
        )
    }
}

/// Whether what the parser handed out is what the grammar gives.
pub open spec fn step_is(got: Result<Option<Commit>, SyncError>, want: Step) -> bool {
    match (got, want) {
        (Ok(None), Step::Pending) => true,
        (Ok(Some(c)), Step::Emit(m)) => c@ == m,
        (Err(e), Step::Fail(f)) => e == f,
        _ => false,
    }
}

/// The parser of the exporter's output: it is fed the output chunk by chunk
/// and hands out a commit at the end of each commit record.
pub struct CommitExportIter {
    repo_id: i64,
    is_commit: bool,
    skip_size: usize,
    parent_mark: i64,
    commit_mark: i64,
    commit_hash: SqlOid,
    has_hash: bool,
    files: Vec<String>,
    failed: bool,
}

impl View for CommitExportIter {
    type V = RecordState;

    closed spec fn view(&self) -> RecordState {
        RecordState {
            repo_id: self.repo_id,
            is_commit: self.is_commit,
            skip_size: self.skip_size,
            parent_mark: self.parent_mark,
            commit_mark: self.commit_mark,
            commit_hash: self.commit_hash@,
            has_hash: self.has_hash,
            files: texts(self.files@),
            failed: self.failed,
        }
    }
}

impl CommitExportIter {
    /// A parser at the start of the output of a repository's exporter.
    pub fn new(repo_id: i64) -> (iter: CommitExportIter)
        requires
            repo_id != 0,
        ensures
            iter@ == start_of(repo_id),
    {
        let iter = CommitExportIter {
            repo_id,
            is_commit: false,
            skip_size: 0,
            parent_mark: 0,
            commit_mark: 0,
            commit_hash: SqlOid::zero(),
            has_hash: false,
            files: Vec::new(),
            failed: false,
        };
        assert(texts(iter.files@) =~= Seq::<Seq<char>>::empty());
        iter
    }

    /// Whether a malformed line has ended the stream.
    pub fn is_failed(&self) -> (failed: bool)
        ensures
            failed == self@.failed,
    {
        self.failed
    }

    /// Takes one chunk of the exporter's output: what one read up to and
    /// including the next line feed delivered.
    pub fn feed(&mut self, chunk: &[u8]) -> (r: Result<Option<Commit>, SyncError>)
        ensures
            final(self)@ == spec_feed(old(self)@, chunk@).0,
            step_is(r, spec_feed(old(self)@, chunk@).1),
    {
        let size = chunk.len();
        if self.failed || size == 0 {
            return Ok(None);
        }
        let mut index: usize = 0;
        if self.skip_size != 0 {
            if size > self.skip_size {
                index = self.skip_size;
                self.skip_size = 0;
            } else {
                self.skip_size -= size;
                return Ok(None);
            }
        }
        let mut end = size;
        if end > index && chunk[end - 1] == LF {
            end -= 1;
            if end > index && chunk[end - 1] == CR {
                end -= 1;
            }
        }
        let line = slice_subrange(chunk, index, end);
        assert(line@ =~= trim_line(chunk@.skip(index as int)));
        match parse_line(line) {
            Err(e) => {
                self.failed = true;
                Err(e)
            },
            Ok(ParseLine::IsCommit) => {
                self.is_commit = true;
                Ok(None)
            },
            Ok(ParseLine::SkipMessage(n)) => {
                self.skip_size = n;
                Ok(None)
            },
            Ok(ParseLine::ParentMark(n)) => {
                self.parent_mark = n;
                Ok(None)
            },
            Ok(ParseLine::CommitMark(n)) => {
                self.commit_mark = n;
                Ok(None)
            },
            Ok(ParseLine::CommitHash(h)) => {
                self.commit_hash = h;
                self.has_hash = true;
                Ok(None)
            },
            Ok(ParseLine::ChangeFile(f)) => {
                assert(texts(self.files@.push(f)) =~= texts(self.files@).push(f@));
                self.files.push(f);
                Ok(None)
            },
            Ok(ParseLine::Continue) => Ok(None),
            Ok(ParseLine::PartDone) => self.finish_record(),
        }
    }

    /// Ends the record: hands out the commit where the record was one, and
    /// starts anew.
    fn finish_record(&mut self) -> (r: Result<Option<Commit>, SyncError>)
        requires
            !old(self)@.failed,
            old(self)@.skip_size == 0,
        ensures
            final(self)@ == apply_line(old(self)@, Ok(LineModel::PartDone)).0,
            step_is(r, apply_line(old(self)@, Ok(LineModel::PartDone)).1),
    {
        let mut files: Vec<String> = Vec::new();
        assert(texts(files@) =~= Seq::<Seq<char>>::empty());
        core::mem::swap(&mut self.files, &mut files);
        let commit = Commit {
            commit_id: None,
            commit_hash: self.commit_hash,
            commit_mark: self.commit_mark,
            parent_mark: if self.parent_mark == 0 {
                None
            } else {
                Some(self.parent_mark)
            },
            repo_id: self.repo_id,
            depth: None,
            files,
        };
        let was_commit = self.is_commit;
        let had_hash = self.has_hash;
        self.is_commit = false;
        self.parent_mark = 0;
        self.commit_mark = 0;
        self.commit_hash = SqlOid::zero();
        self.has_hash = false;
        if !was_commit {
            Ok(None)
        } else if !had_hash {
            self.failed = true;
            Err(SyncError::BadHash)
        } else {
            Ok(Some(commit))
        }
    }
}

/// The values of a list of commits.
pub open spec fn commit_models(v: Seq<Commit>) -> Seq<CommitModel> {
    Seq::new(v.len(), |i: int| v[i]@)
}

/// Where the chunk that starts at `pos` ends: behind the next line feed, or
/// at the end of the input where no line feed is left.
pub open spec fn chunk_end(input: Seq<u8>, pos: int) -> int {
    let feed = find_byte(input, LF, pos);
    if feed < input.len() {
        feed + 1
    } else {
        input.len() as int
    }
}

/// What reading a whole input gives.
pub struct Drained {
    /// The parser after the last chunk it took.
    pub state: RecordState,
    /// The commits handed out, in the order of the input.
    pub commits: Seq<CommitModel>,
    /// The error that ended the stream, if one did.
    pub failure: Option<SyncError>,
}

/// Reading the input from `pos` on, chunk by chunk, until it ends or a line
/// is malformed.
pub open spec fn spec_drain(st: RecordState, input: Seq<u8>, pos: int) -> Drained
    decreases input.len() - pos,
    via spec_drain_decreases
{
    if pos < 0 || pos >= input.len() {
        Drained { state: st, commits: Seq::empty(), failure: None }
    } else {
        let end = chunk_end(input, pos);
        let fed = spec_feed(st, input.subrange(pos, end));
        match fed.1 {
            Step::Fail(e) => Drained { state: fed.0, commits: Seq::empty(), failure: Some(e) },
            Step::Pending => spec_drain(fed.0, input, end),
            Step::Emit(c) => {
                let rest = spec_drain(fed.0, input, end);
                Drained { commits: seq![c] + rest.commits, ..rest }
            },
        }
    }
}

#[via_fn]
proof fn spec_drain_decreases(st: RecordState, input: Seq<u8>, pos: int) {
    if 0 <= pos < input.len() {
        lemma_find_byte(input, LF, pos);
    }
}

/// A chunk is not empty and stays within the input.
pub proof fn lemma_chunk_end(input: Seq<u8>, pos: int)
    requires
        0 <= pos < input.len(),
    ensures
        pos < chunk_end(input, pos) <= input.len(),
{
    lemma_find_byte(input, LF, pos);
}

impl CommitExportIter {
    /// Reads a whole input: the commits it holds, in order, and the error
    /// that ended the stream, if one did. Commits that came before the error
    /// are handed out all the same.
    pub fn drain(&mut self, input: &[u8]) -> (r: (Vec<Commit>, Option<SyncError>))
        ensures
            final(self)@ == spec_drain(old(self)@, input@, 0).state,
            commit_models(r.0@) == spec_drain(old(self)@, input@, 0).commits,
            r.1 == spec_drain(old(self)@, input@, 0).failure,
    {
        let mut out: Vec<Commit> = Vec::new();
        let mut pos: usize = 0;
        let ghost start = self@;
        assert(commit_models(out@) =~= Seq::<CommitModel>::empty());
        while pos < input.len()
            invariant
                pos <= input@.len(),
                start == old(self)@,
                spec_drain(start, input@, 0).state == spec_drain(self@, input@, pos as int).state,
                spec_drain(start, input@, 0).failure == spec_drain(
                    self@,
                    input@,
                    pos as int,
                ).failure,
                spec_drain(start, input@, 0).commits == commit_models(out@) + spec_drain(
                    self@,
                    input@,
                    pos as int,
                ).commits,
            decreases input@.len() - pos,
        {
            let feed = index_of(input, LF, pos);
            let end = if feed < input.len() {
                feed + 1
            } else {
                input.len()
            };
            proof {
                lemma_chunk_end(input@, pos as int);
            }
            let chunk = slice_subrange(input, pos, end);
            let ghost gathered = commit_models(out@);
            assert(chunk@ == input@.subrange(pos as int, end as int));
            assert(end == chunk_end(input@, pos as int));
            match self.feed(chunk) {
                Err(e) => {
                    assert(gathered + Seq::<CommitModel>::empty() =~= gathered);
                    return (out, Some(e));
                },
                Ok(None) => {},
                Ok(Some(c)) => {
                    out.push(c);
                    proof {
                        let rest = spec_drain(self@, input@, end as int);
                        assert(commit_models(out@) =~= gathered.push(c@));
                        assert(gathered + (seq![c@] + rest.commits) =~= gathered.push(c@)
                            + rest.commits);
                    }
                },
            }
            pos = end;
        }
        assert(commit_models(out@) + Seq::<CommitModel>::empty() =~= commit_models(out@));
        (out, None)
    }
}

/// Reads the whole output of the exporter of one repository.
pub fn parse_export(repo_id: i64, input: &[u8]) -> (r: (Vec<Commit>, Option<SyncError>))
    requires
        repo_id != 0,
    ensures
        commit_models(r.0@) == spec_drain(start_of(repo_id), input@, 0).commits,
        r.1 == spec_drain(start_of(repo_id), input@, 0).failure,
{
    let mut iter = CommitExportIter::new(repo_id);
    iter.drain(input)
}

/// The parser's state before any input.
pub open spec fn start_of(repo_id: i64) -> RecordState {
    RecordState {
        repo_id,
        is_commit: false,
        skip_size: 0,
        parent_mark: 0,
        commit_mark: 0,
        commit_hash: zero_bytes(),
        has_hash: false,
        files: Seq::empty(),
        failed: false,
    }
}

/// The program that exports the history of a repository.
pub const EXPORTER: &'static str = "git";

/// What the exporter is asked for: signed tags stripped of their signature,
/// marks written to and read from the mark file, marks for tags, a made-up
/// tagger where one is missing, no file contents, the id that each object
/// has in the repository, messages in UTF-8, and all branches and tags.
pub open spec fn spec_exporter_args(mark_file: Seq<char>) -> Seq<Seq<char>> {
    seq![
        "fast-export"@,
        "--signed-tags=strip"@,
        "--export-marks"@,
        mark_file,
        "--import-marks"@,
        mark_file,
        "--mark-tags"@,
        "--fake-missing-tagger"@,
        "--no-data"@,
        "--show-original-ids"@,
        "--reencode=yes"@,
        "--branches"@,
        "--tags"@,
    ]
}

/// The arguments that the exporter is started with. The mark file is named
/// twice, so that marks given on an earlier run are kept and only new
/// commits get new ones.
pub fn exporter_args(mark_file: &str) -> (args: Vec<String>)
    ensures
        texts(args@) == spec_exporter_args(mark_file@),
{
    let mut args: Vec<String> = Vec::new();
    args.push("fast-export".to_owned());
    args.push("--signed-tags=strip".to_owned());
    args.push("--export-marks".to_owned());
    args.push(mark_file.to_owned());
    args.push("--import-marks".to_owned());
    args.push(mark_file.to_owned());
    args.push("--mark-tags".to_owned());
    args.push("--fake-missing-tagger".to_owned());
    args.push("--no-data".to_owned());
    args.push("--show-original-ids".to_owned());
    args.push("--reencode=yes".to_owned());
    args.push("--branches".to_owned());
    args.push("--tags".to_owned());
    assert(texts(args@) =~= spec_exporter_args(mark_file@));
    args
}

} // verus!
