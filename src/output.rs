use vstd::prelude::*;

verus! {

/// How a child process ended: its exit code, or none when a signal ended it.
#[derive(Clone, Copy, Debug, PartialEq, Eq)]
pub struct ExitStatus {
    pub code: Option<i32>,
}

impl ExitStatus {
    pub open spec fn spec_success(self) -> bool {
        self.code == Some(0i32)
    }

    /// A process succeeded when it exited with code 0.
    pub fn success(&self) -> (r: bool)
        ensures
            r == self.spec_success(),
    {
        match self.code {
            Some(c) => c == 0,
            None => false,
        }
    }
}

/// One event of the output sequence of a child process.
#[derive(Clone, Debug, PartialEq, Eq)]
pub enum Output {
    /// A line that the child wrote to stdout.
    Stdout(String),
    /// A line that the child wrote to stderr.
    Stderr(String),
    /// The child has exited with this status.
    Exit(ExitStatus),
}

/// The mathematical value of an [Output].
pub enum Event {
    Stdout(Seq<char>),
    Stderr(Seq<char>),
    Exit(ExitStatus),
}

impl View for Output {
    type V = Event;

    open spec fn view(&self) -> Event {
        match self {
            Output::Stdout(s) => Event::Stdout(s@),
            Output::Stderr(s) => Event::Stderr(s@),
            Output::Exit(st) => Event::Exit(*st),
        }
    }
}

pub open spec fn events_of(v: Seq<Output>) -> Seq<Event> {
    v.map_values(|o: Output| o@)
}

pub open spec fn lines_of(v: Seq<String>) -> Seq<Seq<char>> {
    v.map_values(|s: String| s@)
}

/// The stdout lines among `evs`, in order.
pub open spec fn stdout_lines(evs: Seq<Event>) -> Seq<Seq<char>>
    decreases evs.len(),
{
    if evs.len() == 0 {
        seq![]
    } else {
        let rest = stdout_lines(evs.drop_last());
        match evs.last() {
            Event::Stdout(l) => rest.push(l),
            _ => rest,
        }
    }
}

/// The stderr lines among `evs`, in order.
pub open spec fn stderr_lines(evs: Seq<Event>) -> Seq<Seq<char>>
    decreases evs.len(),
{
    if evs.len() == 0 {
        seq![]
    } else {
        let rest = stderr_lines(evs.drop_last());
        match evs.last() {
            Event::Stderr(l) => rest.push(l),
            _ => rest,
        }
    }
}

/// The exit statuses among `evs`, in order.
pub open spec fn exits(evs: Seq<Event>) -> Seq<ExitStatus>
    decreases evs.len(),
{
    if evs.len() == 0 {
        seq![]
    } else {
        let rest = exits(evs.drop_last());
        match evs.last() {
            Event::Exit(s) => rest.push(s),
            _ => rest,
        }
    }
}

/// Splitting a trace in two splits what each filter keeps in the same place.
pub proof fn lemma_filters_concat(a: Seq<Event>, b: Seq<Event>)
    ensures
        stdout_lines(a + b) == stdout_lines(a) + stdout_lines(b),
        stderr_lines(a + b) == stderr_lines(a) + stderr_lines(b),
        exits(a + b) == exits(a) + exits(b),
    decreases b.len(),
{
    if b.len() == 0 {
        assert(a + b =~= a);
        assert(stdout_lines(a) + stdout_lines(b) =~= stdout_lines(a));
        assert(stderr_lines(a) + stderr_lines(b) =~= stderr_lines(a));
        assert(exits(a) + exits(b) =~= exits(a));
    } else {
        lemma_filters_concat(a, b.drop_last());
        assert((a + b).drop_last() =~= a + b.drop_last());
        assert((a + b).last() == b.last());
        assert(stdout_lines(a + b) =~= stdout_lines(a) + stdout_lines(b));
        assert(stderr_lines(a + b) =~= stderr_lines(a) + stderr_lines(b));
        assert(exits(a + b) =~= exits(a) + exits(b));
    }
}

/// One of the three tasks that feed the channel of a running process.
pub enum Producer {
    StdoutReader,
    StderrReader,
    ExitWaiter,
}

pub open spec fn stdout_events(out: Seq<Seq<char>>) -> Seq<Event> {
    out.map_values(|l: Seq<char>| Event::Stdout(l))
}

pub open spec fn stderr_events(err: Seq<Seq<char>>) -> Seq<Event> {
    err.map_values(|l: Seq<char>| Event::Stderr(l))
}

/// The events that the consumer of a process receives, when its stdout reader
/// still has to send `out`, its stderr reader `err`, and its exit waiter the
/// status (unless `exited`), and `schedule` says which task gets to send next.
/// A task with nothing left to send lets its turn pass; once the schedule is
/// over, what is left arrives.
pub open spec fn relay_events(
    out: Seq<Seq<char>>,
    err: Seq<Seq<char>>,
    status: ExitStatus,
    exited: bool,
    schedule: Seq<Producer>,
) -> Seq<Event>
    decreases schedule.len(),
{
    if schedule.len() == 0 {
        stdout_events(out) + stderr_events(err) + (if exited {
            Seq::<Event>::empty()
        } else {
            seq![Event::Exit(status)]
        })
    } else {
        let rest = schedule.drop_first();
        match schedule[0] {
            Producer::StdoutReader => if out.len() > 0 {
                seq![Event::Stdout(out[0])] + relay_events(
                    out.drop_first(),
                    err,
                    status,
                    exited,
                    rest,
                )
            } else {
                relay_events(out, err, status, exited, rest)
            },
            Producer::StderrReader => if err.len() > 0 {
                seq![Event::Stderr(err[0])] + relay_events(
                    out,
                    err.drop_first(),
                    status,
                    exited,
                    rest,
                )
            } else {
                relay_events(out, err, status, exited, rest)
            },
            Producer::ExitWaiter => if !exited {
                seq![Event::Exit(status)] + relay_events(out, err, status, true, rest)
            } else {
                relay_events(out, err, status, exited, rest)
            },
        }
    }
}

proof fn lemma_single_event(e: Event)
    ensures
        stdout_lines(seq![e]) == (match e {
            Event::Stdout(l) => seq![l],
            _ => Seq::<Seq<char>>::empty(),
        }),
        stderr_lines(seq![e]) == (match e {
            Event::Stderr(l) => seq![l],
            _ => Seq::<Seq<char>>::empty(),
        }),
        exits(seq![e]) == (match e {
            Event::Exit(s) => seq![s],
            _ => Seq::<ExitStatus>::empty(),
        }),
{
    assert(seq![e].drop_last() =~= Seq::<Event>::empty());
    assert(stdout_lines(Seq::<Event>::empty()) == Seq::<Seq<char>>::empty());
    assert(stderr_lines(Seq::<Event>::empty()) == Seq::<Seq<char>>::empty());
    assert(exits(Seq::<Event>::empty()) == Seq::<ExitStatus>::empty());
    assert(stdout_lines(seq![e]) =~= (match e {
        Event::Stdout(l) => seq![l],
        _ => Seq::<Seq<char>>::empty(),
    }));
    assert(stderr_lines(seq![e]) =~= (match e {
        Event::Stderr(l) => seq![l],
        _ => Seq::<Seq<char>>::empty(),
    }));
    assert(exits(seq![e]) =~= (match e {
        Event::Exit(s) => seq![s],
        _ => Seq::<ExitStatus>::empty(),
    }));
}

proof fn lemma_stdout_events(out: Seq<Seq<char>>)
    ensures
        stdout_lines(stdout_events(out)) == out,
        stderr_lines(stdout_events(out)) == Seq::<Seq<char>>::empty(),
        exits(stdout_events(out)) == Seq::<ExitStatus>::empty(),
    decreases out.len(),
{
    if out.len() == 0 {
        assert(stdout_events(out) =~= Seq::<Event>::empty());
        assert(out =~= Seq::<Seq<char>>::empty());
    } else {
        lemma_stdout_events(out.drop_last());
        assert(stdout_events(out).drop_last() =~= stdout_events(out.drop_last()));
        assert(stdout_lines(stdout_events(out)) =~= out);
    }
}

proof fn lemma_stderr_events(err: Seq<Seq<char>>)
    ensures
        stderr_lines(stderr_events(err)) == err,
        stdout_lines(stderr_events(err)) == Seq::<Seq<char>>::empty(),
        exits(stderr_events(err)) == Seq::<ExitStatus>::empty(),
    decreases err.len(),
{
    if err.len() == 0 {
        assert(stderr_events(err) =~= Seq::<Event>::empty());
        assert(err =~= Seq::<Seq<char>>::empty());
    } else {
        lemma_stderr_events(err.drop_last());
        assert(stderr_events(err).drop_last() =~= stderr_events(err.drop_last()));
        assert(stderr_lines(stderr_events(err)) =~= err);
    }
}

proof fn lemma_relay(
    out: Seq<Seq<char>>,
    err: Seq<Seq<char>>,
    status: ExitStatus,
    exited: bool,
    schedule: Seq<Producer>,
)
    ensures
        stdout_lines(relay_events(out, err, status, exited, schedule)) == out,
        stderr_lines(relay_events(out, err, status, exited, schedule)) == err,
        exits(relay_events(out, err, status, exited, schedule)) == (if exited {
            Seq::<ExitStatus>::empty()
        } else {
            seq![status]
        }),
    decreases schedule.len(),
{
    let evs = relay_events(out, err, status, exited, schedule);
    if schedule.len() == 0 {
        let tail = if exited {
            Seq::<Event>::empty()
        } else {
            seq![Event::Exit(status)]
        };
        lemma_stdout_events(out);
        lemma_stderr_events(err);
        lemma_single_event(Event::Exit(status));
        lemma_filters_concat(stdout_events(out), stderr_events(err));
        lemma_filters_concat(stdout_events(out) + stderr_events(err), tail);
        assert(stdout_lines(evs) =~= out);
        assert(stderr_lines(evs) =~= err);
        assert(exits(evs) =~= (if exited {
            Seq::<ExitStatus>::empty()
        } else {
            seq![status]
        }));
    } else {
        let rest = schedule.drop_first();
        match schedule[0] {
            Producer::StdoutReader => if out.len() > 0 {
                lemma_relay(out.drop_first(), err, status, exited, rest);
                lemma_single_event(Event::Stdout(out[0]));
                lemma_filters_concat(
                    seq![Event::Stdout(out[0])],
                    relay_events(out.drop_first(), err, status, exited, rest),
                );
                assert(stdout_lines(evs) =~= out);
                assert(stderr_lines(evs) =~= err);
            } else {
                lemma_relay(out, err, status, exited, rest);
            },
            Producer::StderrReader => if err.len() > 0 {
                lemma_relay(out, err.drop_first(), status, exited, rest);
                lemma_single_event(Event::Stderr(err[0]));
                lemma_filters_concat(
                    seq![Event::Stderr(err[0])],
                    relay_events(out, err.drop_first(), status, exited, rest),
                );
                assert(stdout_lines(evs) =~= out);
                assert(stderr_lines(evs) =~= err);
            } else {
                lemma_relay(out, err, status, exited, rest);
            },
            Producer::ExitWaiter => if !exited {
                lemma_relay(out, err, status, true, rest);
                lemma_single_event(Event::Exit(status));
                lemma_filters_concat(
                    seq![Event::Exit(status)],
                    relay_events(out, err, status, true, rest),
                );
                assert(stdout_lines(evs) =~= out);
                assert(stderr_lines(evs) =~= err);
                assert(exits(evs) =~= seq![status]);
            } else {
                lemma_relay(out, err, status, exited, rest);
            },
        }
    }
}

/// Whatever order the three tasks of a process send in, a consumer that
/// drains the whole sequence receives exactly one exit event.
pub proof fn lemma_drain_has_one_exit(
    out: Seq<Seq<char>>,
    err: Seq<Seq<char>>,
    status: ExitStatus,
    schedule: Seq<Producer>,
)
    ensures
        exits(relay_events(out, err, status, false, schedule)).len() == 1,
{
    lemma_relay(out, err, status, false, schedule);
}

/// Whatever order the three tasks of a process send in, a full drain yields
/// every stdout line and every stderr line, each stream in its own order, and
/// the process's status once.
pub proof fn lemma_drain_keeps_each_stream(
    out: Seq<Seq<char>>,
    err: Seq<Seq<char>>,
    status: ExitStatus,
    schedule: Seq<Producer>,
)
    ensures
        stdout_lines(relay_events(out, err, status, false, schedule)) == out,
        stderr_lines(relay_events(out, err, status, false, schedule)) == err,
        exits(relay_events(out, err, status, false, schedule)) == seq![status],
{
    lemma_relay(out, err, status, false, schedule);
}

/// What a consumer has seen after draining part or all of an output sequence.
pub struct CollectedOutput {
    pub stdout: Vec<String>,
    pub stderr: Vec<String>,
    pub exits: Vec<ExitStatus>,
}

impl CollectedOutput {
    /// Nothing seen yet.
    pub fn new() -> (r: CollectedOutput)
        ensures
            lines_of(r.stdout@) == Seq::<Seq<char>>::empty(),
            lines_of(r.stderr@) == Seq::<Seq<char>>::empty(),
            r.exits@ == Seq::<ExitStatus>::empty(),
    {
        let r = CollectedOutput { stdout: Vec::new(), stderr: Vec::new(), exits: Vec::new() };
        assert(lines_of(r.stdout@) =~= Seq::<Seq<char>>::empty());
        assert(lines_of(r.stderr@) =~= Seq::<Seq<char>>::empty());
        r
    }

    /// Records one event: a line goes to its stream, a status to the exits.
    pub fn absorb(&mut self, ev: Output)
        ensures
            lines_of(final(self).stdout@) == lines_of(old(self).stdout@) + stdout_lines(seq![ev@]),
            lines_of(final(self).stderr@) == lines_of(old(self).stderr@) + stderr_lines(seq![ev@]),
            final(self).exits@ == old(self).exits@ + exits(seq![ev@]),
    {
        let ghost e = ev@;
        assert(seq![e].drop_last() =~= Seq::<Event>::empty());
        assert(seq![e].last() == e);
        assert(stdout_lines(Seq::<Event>::empty()) == Seq::<Seq<char>>::empty());
        assert(stderr_lines(Seq::<Event>::empty()) == Seq::<Seq<char>>::empty());
        assert(exits(Seq::<Event>::empty()) == Seq::<ExitStatus>::empty());
        match ev {
            Output::Stdout(l) => {
                self.stdout.push(l);
            },
            Output::Stderr(l) => {
                self.stderr.push(l);
            },
            Output::Exit(s) => {
                self.exits.push(s);
            },
        }
        assert(lines_of(self.stdout@) =~= lines_of(old(self).stdout@) + stdout_lines(seq![e]));
        assert(lines_of(self.stderr@) =~= lines_of(old(self).stderr@) + stderr_lines(seq![e]));
        assert(self.exits@ =~= old(self).exits@ + exits(seq![e]));
    }

    /// The exit status seen, when exactly one was seen.
    pub fn exit_status(&self) -> (r: Option<ExitStatus>)
        ensures
            r == (if self.exits@.len() == 1 {
                Some(self.exits@[0])
            } else {
                None::<ExitStatus>
            }),
    {
        if self.exits.len() == 1 {
            Some(self.exits[0])
        } else {
            None
        }
    }
}

/// Drains a sequence of events into what each stream carried.
pub fn collect(events: Vec<Output>) -> (r: CollectedOutput)
    ensures
        lines_of(r.stdout@) == stdout_lines(events_of(events@)),
        lines_of(r.stderr@) == stderr_lines(events_of(events@)),
        r.exits@ == exits(events_of(events@)),
{
    let ghost all = events@;
    let mut rest = events;
    let mut r = CollectedOutput::new();
    let ghost i: int = 0;
    assert(all.subrange(0, 0) =~= Seq::<Output>::empty());
    assert(events_of(Seq::<Output>::empty()) =~= Seq::<Event>::empty());
    while rest.len() > 0
        invariant
            0 <= i <= all.len(),
            rest@ == all.subrange(i, all.len() as int),
            lines_of(r.stdout@) == stdout_lines(events_of(all.subrange(0, i))),
            lines_of(r.stderr@) == stderr_lines(events_of(all.subrange(0, i))),
            r.exits@ == exits(events_of(all.subrange(0, i))),
        decreases rest.len(),
    {
        let ghost before = events_of(all.subrange(0, i));
        let ev = rest.remove(0);
        proof {
            assert(ev == all[i]);
            assert(events_of(all.subrange(0, i + 1)) =~= before + seq![ev@]);
            lemma_filters_concat(before, seq![ev@]);
        }
        r.absorb(ev);
        proof {
            i = i + 1;
            assert(rest@ =~= all.subrange(i, all.len() as int));
        }
    }
    assert(all.subrange(0, i) =~= all);
    r
}

/// The consumer's side of an output sequence. The sequence ends when the
/// channel reports that all its senders are gone; after that every pull
/// yields nothing, without asking the channel again.
pub struct PullState {
    pub ended: bool,
}

impl PullState {
    /// A sequence that has not ended.
    pub fn new() -> (r: PullState)
        ensures
            !r.ended,
    {
        PullState { ended: false }
    }

    /// Whether the next pull should wait on the channel.
    pub fn should_receive(&self) -> (r: bool)
        ensures
            r == !self.ended,
    {
        !self.ended
    }

    /// What a pull yields, given what the channel handed over (`None` once all
    /// senders are gone, or when the channel was not asked).
    pub fn pull(&mut self, received: Option<Output>) -> (r: Option<Output>)
        ensures
            old(self).ended ==> r is None && final(self).ended,
            !old(self).ended ==> r == received && final(self).ended == (received is None),
    {
        if self.ended {
            None
        } else {
            if received.is_none() {
                self.ended = true;
            }
            received
        }
    }
}

/// Which pipe of a child a reader drains.
#[derive(Clone, Copy, Debug, PartialEq, Eq)]
pub enum Stream {
    Stdout,
    Stderr,
}

impl Stream {
    /// The event that carries `line` from this stream.
    pub fn tag(self, line: String) -> (r: Output)
        ensures
            r@ == (match self {
                Stream::Stdout => Event::Stdout(line@),
                Stream::Stderr => Event::Stderr(line@),
            }),
    {
        match self {
            Stream::Stdout => Output::Stdout(line),
            Stream::Stderr => Output::Stderr(line),
        }
    }
}

/// What a reader got from its pipe.
pub enum LineRead {
    /// A whole line, without its line break.
    Line(String),
    /// A line that could not be decoded as text.
    Undecodable,
    /// The pipe is closed.
    End,
}

/// What a reader does with what it read.
pub enum ReaderAction {
    /// Forward this event into the channel.
    Send(Output),
    /// Drop the line and read the next one.
    Skip,
    /// Stop reading.
    Stop,
}

/// A reader forwards each decoded line tagged with its stream, skips a line
/// that cannot be decoded, and stops at the end of the pipe.
pub fn reader_step(stream: Stream, read: LineRead) -> (r: ReaderAction)
    ensures
        match read {
            LineRead::Line(l) => r matches ReaderAction::Send(o) && o@ == (match stream {
                Stream::Stdout => Event::Stdout(l@),
                Stream::Stderr => Event::Stderr(l@),
            }),
            LineRead::Undecodable => r is Skip,
            LineRead::End => r is Stop,
        },
{
    match read {
        LineRead::Line(l) => ReaderAction::Send(stream.tag(l)),
        LineRead::Undecodable => ReaderAction::Skip,
        LineRead::End => ReaderAction::Stop,
    }
}

/// After a send a reader goes on only while the receiving end is still there.
pub fn keep_reading(sent: bool) -> (r: bool)
    ensures
        r == sent,
{
    sent
}

} // verus!
