//! The consumer of a batch's events: it polls the channel, keeps the log and
//! the progress to show, and stops listening at the terminal event or when
//! its user stops the batch.

use vstd::prelude::*;
use vstd::string::*;
use crate::channel::{terminal, ChannelState, EventChannel};
use crate::log::{log_line, logged, time_of_day, LogBuffer, LOG_CAPACITY};
use crate::progress::Event;

verus! {

/// What the consumer shows, by what it stands for.
pub ghost struct MonitorState {
    /// The lines of the log, the oldest first.
    pub lines: Seq<Seq<char>>,
    /// The progress units that are done.
    pub completed: nat,
    /// The progress units of the batch.
    pub total: nat,
    /// Whether a batch is running.
    pub processing: bool,
}

/// The line that is logged when a batch has finished.
pub open spec fn finished_message() -> Seq<char> {
    "🎉 所有任务已完成！"@
}

/// The line that is logged for the error `message`.
pub open spec fn error_line(message: Seq<char>) -> Seq<char> {
    "❌ 错误: "@ + message
}

/// The line that is logged when the user stops a batch.
pub open spec fn stopped_message() -> Seq<char> {
    "🛑 用户停止处理"@
}

impl MonitorState {
    /// Whether the log holds no more lines than it keeps.
    pub open spec fn wf(self) -> bool {
        self.lines.len() <= LOG_CAPACITY
    }

    /// The state with the line for `message`, taken at `timestamp`, added
    /// to the log.
    pub open spec fn with_line(self, timestamp: Seq<char>, message: Seq<char>) -> MonitorState {
        MonitorState {
            lines: logged(self.lines, log_line(timestamp, message)),
            completed: self.completed,
            total: self.total,
            processing: self.processing,
        }
    }

    /// The state after `event` was received at `timestamp`: a log line is
    /// logged, a progress event is shown, and a terminal event ends the
    /// batch; `Finished` also shows the progress as complete.
    pub open spec fn handled(self, event: Event, timestamp: Seq<char>) -> MonitorState {
        match event {
            Event::Log(text) => self.with_line(timestamp, text@),
            Event::Progress { completed, total } => MonitorState {
                lines: self.lines,
                completed: completed as nat,
                total: total as nat,
                processing: self.processing,
            },
            Event::Finished => MonitorState {
                lines: logged(self.lines, log_line(timestamp, finished_message())),
                completed: self.total,
                total: self.total,
                processing: false,
            },
            Event::Error(message) => MonitorState {
                lines: logged(self.lines, log_line(timestamp, error_line(message@))),
                completed: self.completed,
                total: self.total,
                processing: false,
            },
        }
    }

    /// The state after the events `events` were received at `timestamp`, up
    /// to and with the first terminal one.
    pub open spec fn handled_all(self, events: Seq<Event>, timestamp: Seq<char>) -> MonitorState
        decreases events.len(),
    {
        if events.len() == 0 {
            self
        } else if terminal(events[0]) {
            self.handled(events[0], timestamp)
        } else {
            self.handled(events[0], timestamp).handled_all(events.drop_first(), timestamp)
        }
    }
}

/// Whether a terminal event is among `events`.
pub open spec fn has_terminal(events: Seq<Event>) -> bool {
    exists|i: int| 0 <= i < events.len() && terminal(events[i])
}

/// What the consumer of a batch shows.
pub struct Monitor {
    log: LogBuffer,
    completed: usize,
    total: usize,
    processing: bool,
}

impl View for Monitor {
    type V = MonitorState;

    closed spec fn view(&self) -> MonitorState {
        MonitorState {
            lines: self.log@,
            completed: self.completed as nat,
            total: self.total as nat,
            processing: self.processing,
        }
    }
}

impl Monitor {
    /// A consumer with an empty log and no batch running.
    pub fn new() -> (r: Self)
        ensures
            r@.wf(),
            r@ == (MonitorState {
                lines: Seq::empty(),
                completed: 0,
                total: 0,
                processing: false,
            }),
    {
        Monitor { log: LogBuffer::new(), completed: 0, total: 0, processing: false }
    }

    /// Whether a batch is running.
    pub fn is_processing(&self) -> (r: bool)
        ensures
            r == self@.processing,
    {
        self.processing
    }

    /// The progress to show: the units done and the units of the batch.
    pub fn progress(&self) -> (r: (usize, usize))
        ensures
            r.0 == self@.completed,
            r.1 == self@.total,
    {
        (self.completed, self.total)
    }

    /// The number of lines in the log.
    pub fn log_len(&self) -> (r: usize)
        ensures
            r == self@.lines.len(),
    {
        self.log.len()
    }

    /// Line `i` of the log, the oldest first, if there is one.
    pub fn log_line(&self, i: usize) -> (r: Option<String>)
        ensures
            i < self@.lines.len() ==> r is Some && r->Some_0@ == self@.lines[i as int],
            i >= self@.lines.len() ==> r is None,
    {
        self.log.line(i)
    }

    /// Adds the line for `message`, taken at `timestamp`, to the log.
    pub fn log(&mut self, timestamp: &str, message: &str)
        requires
            old(self)@.wf(),
        ensures
            final(self)@.wf(),
            final(self)@ == old(self)@.with_line(timestamp@, message@),
    {
        self.log.log(timestamp, message);
    }

    /// Starts showing a batch: nothing is done yet, and the batch runs.
    pub fn start(&mut self)
        ensures
            final(self)@ == (MonitorState {
                lines: old(self)@.lines,
                completed: 0,
                total: old(self)@.total,
                processing: true,
            }),
    {
        self.completed = 0;
        self.processing = true;
    }

    /// Takes the event `event`, received at `timestamp`, into account, and
    /// says whether to go on listening: not after a terminal event.
    pub fn handle(&mut self, event: Event, timestamp: &str) -> (r: bool)
        requires
            old(self)@.wf(),
        ensures
            final(self)@.wf(),
            final(self)@ == old(self)@.handled(event, timestamp@),
            r == !terminal(event),
    {
        match event {
            Event::Log(text) => {
                self.log.log(timestamp, text.as_str());
                true
            },
            Event::Progress { completed, total } => {
                self.completed = completed;
                self.total = total;
                true
            },
            Event::Finished => {
                self.processing = false;
                self.log.log(timestamp, "🎉 所有任务已完成！");
                self.completed = self.total;
                false
            },
            Event::Error(message) => {
                let mut line = String::from_str("❌ 错误: ");
                line.append(message.as_str());
                self.log.log(timestamp, line.as_str());
                self.processing = false;
                false
            },
        }
    }

    /// Receives what waits in `channel`, at `timestamp`, up to and with the
    /// first terminal event, at which the consumer stops listening.
    pub fn poll(&mut self, channel: &mut EventChannel, timestamp: &str)
        requires
            old(self)@.wf(),
            old(channel)@.wf(),
        ensures
            final(self)@.wf(),
            final(channel)@.wf(),
            final(self)@ == old(self)@.handled_all(old(channel)@.pending, timestamp@),
            final(channel)@.pending.len() == 0,
            final(channel)@.capacity == old(channel)@.capacity,
            final(channel)@.ended == old(channel)@.ended,
            final(channel)@.listening == (old(channel)@.listening && !has_terminal(
                old(channel)@.pending,
            )),
    {
        let ghost start = self@;
        let ghost all = channel@.pending;
        loop
            invariant
                self@.wf(),
                channel@.wf(),
                channel@.capacity == old(channel)@.capacity,
                channel@.ended == old(channel)@.ended,
                channel@.listening == old(channel)@.listening,
                all == old(channel)@.pending,
                start == old(self)@,
                channel@.pending.len() <= all.len(),
                channel@.pending == all.subrange(
                    all.len() - channel@.pending.len(),
                    all.len() as int,
                ),
                forall|i: int| 0 <= i < all.len() - channel@.pending.len() ==> !terminal(all[i]),
                start.handled_all(all, timestamp@) == self@.handled_all(
                    channel@.pending,
                    timestamp@,
                ),
            decreases channel@.pending.len(),
        {
            let ghost rest = channel@.pending;
            match channel.try_receive() {
                Some(event) => {
                    proof {
                        assert(channel@.pending =~= all.subrange(
                            all.len() - channel@.pending.len(),
                            all.len() as int,
                        ));
                        assert(event == all[all.len() - rest.len()]);
                    }
                    let go_on = self.handle(event, timestamp);
                    if !go_on {
                        channel.stop();
                        return ;
                    }
                },
                None => {
                    proof {
                        if has_terminal(all) {
                            let i = choose|i: int| 0 <= i < all.len() && terminal(all[i]);
                            assert(!terminal(all[i]));
                        }
                    }
                    return ;
                },
            }
        }
    }

    /// Stops the batch on the user's behalf, at `timestamp`: where one is
    /// running, the consumer stops listening and logs that it did. The jobs
    /// that are under way are not stopped.
    pub fn stop(&mut self, channel: &mut EventChannel, timestamp: &str)
        requires
            old(self)@.wf(),
            old(channel)@.wf(),
        ensures
            final(self)@.wf(),
            final(channel)@.wf(),
            old(self)@.processing ==> final(channel)@ == old(channel)@.stopped() && final(self)@
                == (MonitorState {
                lines: logged(old(self)@.lines, log_line(timestamp@, stopped_message())),
                completed: old(self)@.completed,
                total: old(self)@.total,
                processing: false,
            }),
            !old(self)@.processing ==> final(channel)@ == old(channel)@ && final(self)@ == old(
                self,
            )@,
    {
        if self.processing {
            self.processing = false;
            channel.stop();
            self.log.log(timestamp, "🛑 用户停止处理");
        }
    }

    /// Adds the line for `message`, taken now, to the log: its time has ten
    /// characters.
    pub fn log_now(&mut self, message: &str)
        requires
            old(self)@.wf(),
        ensures
            final(self)@.wf(),
            exists|timestamp: Seq<char>|
                timestamp.len() == 10 && final(self)@ == old(self)@.with_line(
                    timestamp,
                    message@,
                ),
    {
        self.log.log_now(message);
    }

    /// Takes the event `event`, received now, into account; see `handle`.
    pub fn handle_now(&mut self, event: Event) -> (r: bool)
        requires
            old(self)@.wf(),
        ensures
            final(self)@.wf(),
            exists|timestamp: Seq<char>|
                timestamp.len() == 10 && final(self)@ == old(self)@.handled(event, timestamp),
            r == !terminal(event),
    {
        let timestamp = time_of_day();
        self.handle(event, timestamp.as_str())
    }

    /// Stops the batch on the user's behalf, now; see `stop`.
    pub fn stop_now(&mut self, channel: &mut EventChannel)
        requires
            old(self)@.wf(),
            old(channel)@.wf(),
        ensures
            final(self)@.wf(),
            final(channel)@.wf(),
            old(self)@.processing ==> final(channel)@ == old(channel)@.stopped() && exists|
                timestamp: Seq<char>,
            |
                timestamp.len() == 10 && final(self)@ == (MonitorState {
                    lines: logged(old(self)@.lines, log_line(timestamp, stopped_message())),
                    completed: old(self)@.completed,
                    total: old(self)@.total,
                    processing: false,
                }),
            !old(self)@.processing ==> final(channel)@ == old(channel)@ && final(self)@ == old(
                self,
            )@,
    {
        let timestamp = time_of_day();
        self.stop(channel, timestamp.as_str());
    }
}

} // verus!
