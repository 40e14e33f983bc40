//! A record of what was sent to a display, and a test interface that keeps such a record.

use crate::interface::{copy_bytes, DisplayInterface};
use display_interface::DisplayError;
use vstd::prelude::*;

verus! {

/// One write to the display: a command byte, or a run of data bytes.
#[derive(Clone, Debug, PartialEq)]
pub enum Sent {
    Cmd(u8),
    Data(Vec<u8>),
}

/// The mathematical value of a [`Sent`]: the data bytes taken as a sequence.
pub ghost enum SentView {
    Cmd(u8),
    Data(Seq<u8>),
}

impl View for Sent {
    type V = SentView;

    open spec fn view(&self) -> SentView {
        match self {
            Sent::Cmd(c) => SentView::Cmd(*c),
            Sent::Data(d) => SentView::Data(d@),
        }
    }
}

/// The views of a sequence of writes.
pub open spec fn sent_views(s: Seq<Sent>) -> Seq<SentView> {
    s.map_values(|w: Sent| w@)
}

} // verus!

verus! {

impl Sent {
    /// A copy of this write.
    pub fn duplicate(&self) -> (r: Sent)
        ensures
            r@ == self@,
    {
        match self {
            Sent::Cmd(c) => Sent::Cmd(*c),
            Sent::Data(d) => Sent::Data(copy_bytes(d.as_slice())),
        }
    }
}

} // verus!

verus! {

/// Whether two byte slices hold the same bytes.
pub fn same_bytes(a: &[u8], b: &[u8]) -> (r: bool)
    ensures
        r == (a@ == b@),
{
    if a.len() != b.len() {
        return false;
    }
    for i in 0..a.len()
        invariant
            a@.len() == b@.len(),
            a@.take(i as int) == b@.take(i as int),
    {
        if a[i] != b[i] {
            assert(a@[i as int] != b@[i as int]);
            return false;
        }
        assert(a@.take(i + 1) =~= a@.take(i as int).push(a@[i as int]));
        assert(b@.take(i + 1) =~= b@.take(i as int).push(b@[i as int]));
    }
    assert(a@ =~= a@.take(a@.len() as int));
    assert(b@ =~= b@.take(b@.len() as int));
    true
}

/// Whether two writes are the same.
pub fn same_write(a: &Sent, b: &Sent) -> (r: bool)
    ensures
        r == (a@ == b@),
{
    match (a, b) {
        (Sent::Cmd(x), Sent::Cmd(y)) => *x == *y,
        (Sent::Data(x), Sent::Data(y)) => same_bytes(x.as_slice(), y.as_slice()),
        _ => false,
    }
}

/// Whether two sequences of writes are the same.
pub fn same_writes(a: &[Sent], b: &[Sent]) -> (r: bool)
    ensures
        r == (sent_views(a@) == sent_views(b@)),
{
    if a.len() != b.len() {
        assert(sent_views(a@).len() != sent_views(b@).len());
        return false;
    }
    for i in 0..a.len()
        invariant
            a@.len() == b@.len(),
            forall|j: int| 0 <= j < i ==> a@[j]@ == #[trigger] b@[j]@,
    {
        if !same_write(&a[i], &b[i]) {
            assert(sent_views(a@)[i as int] != sent_views(b@)[i as int]);
            return false;
        }
    }
    assert(sent_views(a@) =~= sent_views(b@));
    true
}

/// The writes that one command with the data `data` makes: the command byte, then the data
/// when there is any.
pub open spec fn single_writes(cmd: u8, data: Seq<u8>) -> Seq<SentView> {
    if data.len() == 0 {
        seq![SentView::Cmd(cmd)]
    } else {
        seq![SentView::Cmd(cmd), SentView::Data(data)]
    }
}

/// Whether `sent` is exactly the command `cmd` followed by the data `data` (no data write when
/// `data` is empty).
pub fn is_single(sent: &[Sent], cmd: u8, data: &[u8]) -> (r: bool)
    ensures
        r == (sent_views(sent@) == single_writes(cmd, data@)),
{
    let expected_len: usize = if data.len() == 0 { 1 } else { 2 };
    if sent.len() != expected_len {
        assert(sent_views(sent@).len() != single_writes(cmd, data@).len());
        return false;
    }
    let first = match &sent[0] {
        Sent::Cmd(c) => *c == cmd,
        Sent::Data(_) => false,
    };
    if !first {
        assert(sent_views(sent@)[0] != single_writes(cmd, data@)[0]);
        return false;
    }
    if data.len() > 0 {
        let second = match &sent[1] {
            Sent::Data(d) => same_bytes(d.as_slice(), data),
            Sent::Cmd(_) => false,
        };
        if !second {
            assert(sent_views(sent@)[1] != single_writes(cmd, data@)[1]);
            return false;
        }
    }
    assert(sent_views(sent@) =~= single_writes(cmd, data@));
    true
}

/// A display interface for use in tests, which keeps a log of what was sent to it.
pub struct TestSpyInterface {
    sent: Vec<Sent>,
}

impl TestSpyInterface {
    /// The writes sent to this spy, in order.
    pub closed spec fn log(&self) -> Seq<SentView> {
        sent_views(self.sent@)
    }

    /// A spy with an empty log.
    pub fn new() -> (r: Self)
        ensures
            r.log() == Seq::<SentView>::empty(),
    {
        let r = TestSpyInterface { sent: Vec::new() };
        assert(r.log() =~= Seq::<SentView>::empty());
        r
    }

    /// Whether the log holds exactly the command `cmd` followed by the data `data` (no data
    /// write when `data` is empty).
    pub fn logged_single(&self, cmd: u8, data: &[u8]) -> (r: bool)
        ensures
            r == (self.log() == single_writes(cmd, data@)),
    {
        is_single(self.sent.as_slice(), cmd, data)
    }

    /// Whether the log holds exactly the writes `expect`.
    pub fn logged(&self, expect: &[Sent]) -> (r: bool)
        ensures
            r == (self.log() == sent_views(expect@)),
    {
        same_writes(self.sent.as_slice(), expect)
    }

    /// Asserts that the log holds exactly the command `cmd` followed by the data `data` (no
    /// data write when `data` is empty). Any other log is a failed test; a caller that cannot
    /// prove the log first tests it with `logged_single`.
    pub fn check(&self, cmd: u8, data: &[u8])
        requires
            self.log() == single_writes(cmd, data@),
    {
        assert(self.log() == single_writes(cmd, data@));
    }

    /// Asserts that the log holds exactly the writes `expect`. Any other log is a failed test; a
    /// caller that cannot prove the log first tests it with `logged`.
    pub fn check_multi(&self, expect: &[Sent])
        requires
            self.log() == sent_views(expect@),
    {
        assert(self.log() == sent_views(expect@));
    }

    /// Empties the log.
    pub fn clear(&mut self)
        ensures
            final(self).log() == Seq::<SentView>::empty(),
    {
        self.sent.clear();
        assert(self.log() =~= Seq::<SentView>::empty());
    }

    /// Appends `w` to the log.
    pub fn record(&mut self, w: Sent)
        ensures
            final(self).log() == old(self).log().push(w@),
    {
        self.sent.push(w);
        assert(self.log() =~= old(self).log().push(w@));
    }

    /// Logs each byte of `cmds` as a command of its own, in order.
    pub fn record_commands(&mut self, cmds: &[u8])
        ensures
            final(self).log() == old(self).log() + cmds@.map_values(|c: u8| SentView::Cmd(c)),
    {
        let ghost start = self.log();
        for i in 0..cmds.len()
            invariant
                self.log() == start + cmds@.take(i as int).map_values(|c: u8| SentView::Cmd(c)),
        {
            self.record(Sent::Cmd(cmds[i]));
            assert(cmds@.take(i + 1).map_values(|c: u8| SentView::Cmd(c)) =~= cmds@.take(
                i as int,
            ).map_values(|c: u8| SentView::Cmd(c)).push(SentView::Cmd(cmds@[i as int])));
            assert(self.log() =~= start + cmds@.take(i + 1).map_values(|c: u8| SentView::Cmd(c)));
        }
        assert(cmds@.take(cmds@.len() as int) =~= cmds@);
    }
}

impl DisplayInterface for TestSpyInterface {
    type Error = DisplayError;

    open spec fn sent_log(&self) -> Seq<SentView> {
        self.log()
    }

    open spec fn accepts_all(&self) -> bool {
        true
    }

    fn send_command(&mut self, cmd: u8) -> (r: Result<(), DisplayError>) {
        self.record(Sent::Cmd(cmd));
        Ok(())
    }

    fn send_data(&mut self, buf: &[u8]) -> (r: Result<(), DisplayError>) {
        self.record(Sent::Data(copy_bytes(buf)));
        Ok(())
    }
}

} // verus!
