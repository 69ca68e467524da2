//! Whether the user's timer runs, as far as the application knows.
use vstd::prelude::*;
use vstd::string::StringExecFns;
use crate::app::{AdventuriaApp, AppView, Command, CommandView, Message, MessageView, commands_view};
use crate::controllers::main::{Reply, no_command, one_command};

use crate::controllers::Controller;

verus! {

/// Whether the timer is running.
pub struct TimerState {
    pub is_active: bool,
}

/// One timer record of the server.
pub struct TimerRecord {
    pub id: String,
    pub is_active: bool,
}

/// The server's list of a user's timer records.
pub struct TimerResponse {
    pub items: Vec<TimerRecord>,
}

/// The query that asks for the first timer record of a user.
pub struct TimerRequestQuery {
    pub page: usize,
    pub per_page: usize,
    pub filter: String,
    pub skip_total: usize,
}

/// Reacts to the answers about the timer and asks for its state when the
/// window gets the focus.
pub struct TimerController {}

/// What [`TimerController::update`] does: the new state and the commands.
pub open spec fn timer_step<W>(s: AppView<W>, m: MessageView<W>) -> (AppView<W>, Seq<CommandView<W>>) {
    match m {
        MessageView::WindowFocused => match s.config.user_id {
            Some(user_id) => (s, seq![CommandView::FetchTimerStatus { user_id, domain: s.domain }]),
            None => (s, seq![]),
        },
        MessageView::TimerRequestFinished(action, Ok(_)) => if action == "start"@ {
            (AppView { timer_active: true, ..s }, seq![])
        } else if action == "stop"@ {
            (AppView { timer_active: false, ..s }, seq![])
        } else {
            (s, seq![])
        },
        MessageView::TimerStatusFinished(Ok(active)) => (AppView { timer_active: active, ..s }, seq![]),
        MessageView::TimerStatusFinished(Err(e)) => (AppView { status_message: e, ..s }, seq![]),
        _ => (s, seq![]),
    }
}

/// Whether a list of timer records says the timer runs: the first record's
/// flag, and no when there is none.
pub open spec fn first_record_active(items: Seq<TimerRecord>) -> bool {
    items.len() > 0 && items[0].is_active
}

/// The address of the timer records.
pub open spec fn spec_timer_records_url(domain: Seq<char>) -> Seq<char> {
    domain + "/api/collections/timers/records"@
}

/// The filter that selects a user's timer records.
pub open spec fn spec_user_filter(user_id: Seq<char>) -> Seq<char> {
    "user=\""@ + user_id + "\""@
}

/// The result of asking whether the timer runs, given how the request went.
pub open spec fn spec_timer_status_outcome(reply: Reply<TimerResponse>) -> Result<bool, Seq<char>> {
    match reply {
        Reply::SendFailed(e) => Err("Request error: "@ + e@),
        Reply::Refused(status) => Err("Timer request failed: "@ + status@),
        Reply::Answered(Ok(resp)) => Ok(first_record_active(resp.items@)),
        Reply::Answered(Err(e)) => Err("JSON error: "@ + e@),
    }
}

impl TimerResponse {
    /// Whether the timer runs according to this answer.
    pub fn first_is_active(&self) -> (b: bool)
        ensures
            b == first_record_active(self.items@),
    {
        if self.items.len() > 0 {
            self.items[0].is_active
        } else {
            false
        }
    }
}

impl Controller for TimerController {
    /// Applies `message` to the timer state and the status line, and says
    /// which request to send.
    fn update<W: Copy>(state: &mut AdventuriaApp<W>, message: &Message<W>) -> (cmds: Vec<Command<W>>)
        ensures
            final(state)@ == timer_step(old(state)@, message@).0,
            commands_view(cmds@) == timer_step(old(state)@, message@).1,
    {
        match message {
            Message::WindowFocused => match &state.config.user_id {
                Some(user_id) => one_command(Command::FetchTimerStatus {
                    user_id: user_id.clone(),
                    domain: state.domain.clone(),
                }),
                None => no_command(),
            },
            Message::TimerRequestFinished(action, Ok(_)) => {
                if *action == String::from_str("start") {
                    state.timer.is_active = true;
                } else if *action == String::from_str("stop") {
                    state.timer.is_active = false;
                }
                no_command()
            },
            Message::TimerStatusFinished(Ok(active)) => {
                state.timer.is_active = *active;
                no_command()
            },
            Message::TimerStatusFinished(Err(e)) => {
                state.status_message = e.clone();
                no_command()
            },
            _ => no_command(),
        }
    }
}

impl TimerController {

    /// The address of the timer records on the server at `domain`.
    pub fn timer_records_url(domain: &str) -> (url: String)
        ensures
            url@ == spec_timer_records_url(domain@),
            url@ == domain@ + "/api/collections/timers/records"@,
    {
        String::from_str(domain).concat("/api/collections/timers/records")
    }

    /// The query for the first timer record of `user_id`, without the total count.
    pub fn timer_query(user_id: &str) -> (q: TimerRequestQuery)
        ensures
            q.page == 1,
            q.per_page == 1,
            q.filter@ == spec_user_filter(user_id@),
            q.filter@ == "user=\""@ + user_id@ + "\""@,
            q.skip_total == 1,
    {
        TimerRequestQuery {
            page: 1,
            per_page: 1,
            filter: String::from_str("user=\"").concat(user_id).concat("\""),
            skip_total: 1,
        }
    }

    /// Whether the timer runs, or the message that says why that is not known.
    pub fn timer_status_outcome(reply: Reply<TimerResponse>) -> (r: Result<bool, String>)
        ensures
            match r {
                Ok(b) => spec_timer_status_outcome(reply) == Ok::<bool, Seq<char>>(b),
                Err(e) => spec_timer_status_outcome(reply) == Err::<bool, Seq<char>>(e@),
            },
    {
        match reply {
            Reply::SendFailed(e) => Err(String::from_str("Request error: ").concat(e.as_str())),
            Reply::Refused(status) => Err(String::from_str("Timer request failed: ").concat(status.as_str())),
            Reply::Answered(Ok(resp)) => Ok(resp.first_is_active()),
            Reply::Answered(Err(e)) => Err(String::from_str("JSON error: ").concat(e.as_str())),
        }
    }
}

} // verus!
