//! The notification dispatcher: an ordered chain of backends that is tried
//! until one delivers, with every attempt written down for the audit log.
//!
//! Delivering is the caller's work. The dispatcher says which backend to try
//! next, takes the result, and keeps the record.

use vstd::prelude::*;
use vstd::string::StringExecFns;
use crate::text::concat2;

verus! {

/// A mechanism that can show a notification to the operator.
#[derive(Clone, Copy, Debug, PartialEq, Eq, Structural)]
pub enum Backend {
    /// The desktop's native notification service.
    Notifica,
    /// A banner printed on the console.
    Console,
}

/// The ways in which an operator can ask to be notified.
#[derive(Clone, Copy, Debug, PartialEq, Eq, Structural)]
pub enum NotifyMethod {
    /// A notification on the device that runs the monitor.
    Device,
}

/// One try of one backend.
#[derive(Debug)]
pub struct Attempt {
    /// The backend that was tried.
    pub backend: Backend,
    /// Why the backend failed, or `None` if it delivered.
    pub error: Option<String>,
}

/// The mathematical content of an [`Attempt`].
pub struct AttemptView {
    pub backend: Backend,
    pub error: Option<Seq<char>>,
}

/// The ordered chain of backends.
pub struct NotificationService {
    notifiers: Vec<Backend>,
}

/// A dispatch in progress: the message, the chain, and the attempts so far.
pub struct Dispatch {
    title: String,
    body: String,
    backends: Vec<Backend>,
    attempts: Vec<Attempt>,
}

/// How a dispatch ended.
#[derive(Debug)]
pub struct Delivery {
    /// Whether some backend delivered the notification.
    pub delivered: bool,
    /// The attempts that were made, in order.
    pub attempts: Vec<Attempt>,
    /// The lines for the audit log, in order.
    pub log: Vec<String>,
}

impl View for Attempt {
    type V = AttemptView;

    open spec fn view(&self) -> AttemptView {
        AttemptView {
            backend: self.backend,
            error: match self.error {
                Some(e) => Some(e@),
                None => None,
            },
        }
    }
}

/// The contents of a list of attempts.
pub open spec fn attempt_views(attempts: Seq<Attempt>) -> Seq<AttemptView> {
    attempts.map_values(|a: Attempt| a@)
}

/// The contents of a list of lines.
pub open spec fn line_views(lines: Seq<String>) -> Seq<Seq<char>> {
    lines.map_values(|l: String| l@)
}

/// The name under which a backend appears in the audit log.
pub open spec fn backend_name(backend: Backend) -> Seq<char> {
    match backend {
        Backend::Notifica => "Notifica"@,
        Backend::Console => "Console"@,
    }
}

/// The chain that is used when nothing else is configured: the native
/// service first, the console as a fallback.
pub open spec fn default_chain() -> Seq<Backend> {
    seq![Backend::Notifica, Backend::Console]
}

/// The last attempt delivered.
pub open spec fn delivered(attempts: Seq<AttemptView>) -> bool {
    attempts.len() > 0 && attempts.last().error is None
}

/// Nothing is left to try: a backend delivered or the chain is used up.
pub open spec fn finished(backends: Seq<Backend>, attempts: Seq<AttemptView>) -> bool {
    delivered(attempts) || attempts.len() >= backends.len()
}

/// `attempts` is a possible course of a dispatch over `backends`: the
/// backends were tried in order, without gaps, and every attempt but the last
/// one failed.
pub open spec fn is_course(backends: Seq<Backend>, attempts: Seq<AttemptView>) -> bool {
    &&& attempts.len() <= backends.len()
    &&& forall|i: int| 0 <= i < attempts.len() ==> (#[trigger] attempts[i]).backend == backends[i]
    &&& forall|i: int| 0 <= i < attempts.len() - 1 ==> (#[trigger] attempts[i]).error is Some
}

/// The attempts answer as `answers` says: `answers[i]` is what the backend at
/// position `i` returns when it is tried, `None` for a delivery and the error
/// otherwise.
pub open spec fn answered_by(attempts: Seq<AttemptView>, answers: Seq<Option<Seq<char>>>) -> bool {
    &&& attempts.len() <= answers.len()
    &&& forall|i: int| 0 <= i < attempts.len() ==> (#[trigger] attempts[i]).error == answers[i]
}

/// The audit line that announces a try of `backend`.
pub open spec fn trying_line(backend: Backend) -> Seq<char> {
    "Trying notifier: "@ + backend_name(backend)
}

/// The audit line that says how a try of `backend` went: `error` is `None`
/// for a delivery and the reason of the failure otherwise.
pub open spec fn result_line(backend: Backend, error: Option<Seq<char>>) -> Seq<char> {
    match error {
        None => "Notification successful with "@ + backend_name(backend),
        Some(e) => "Notification with "@ + backend_name(backend) + " failed: "@ + e,
    }
}

/// The audit line that closes a dispatch in which every backend failed; it
/// is also the error of the notification as a whole.
pub open spec fn closing_line() -> Seq<char> {
    "All notification methods failed"@
}

/// The two audit lines of one attempt.
pub open spec fn attempt_lines(attempt: AttemptView) -> Seq<Seq<char>> {
    seq![trying_line(attempt.backend), result_line(attempt.backend, attempt.error)]
}

/// The audit lines of a series of attempts.
pub open spec fn attempts_lines(attempts: Seq<AttemptView>) -> Seq<Seq<char>>
    decreases attempts.len(),
{
    if attempts.len() == 0 {
        Seq::empty()
    } else {
        attempts_lines(attempts.drop_last()) + attempt_lines(attempts.last())
    }
}

/// The audit line that opens a dispatch.
pub open spec fn opening_line(title: Seq<char>, body: Seq<char>) -> Seq<char> {
    "Attempting to send notification: '"@ + title + "' - '"@ + body + "'"@
}

/// The audit lines that close a dispatch: one line if the whole chain failed.
pub open spec fn closing_lines(backends: Seq<Backend>, attempts: Seq<AttemptView>) -> Seq<
    Seq<char>,
> {
    if attempts.len() >= backends.len() && !delivered(attempts) {
        seq![closing_line()]
    } else {
        Seq::empty()
    }
}

/// The audit log of a dispatch: the opening line, two lines per attempt, and
/// a closing line if the whole chain failed.
pub open spec fn dispatch_log(
    title: Seq<char>,
    body: Seq<char>,
    backends: Seq<Backend>,
    attempts: Seq<AttemptView>,
) -> Seq<Seq<char>> {
    seq![opening_line(title, body)] + attempts_lines(attempts) + closing_lines(backends, attempts)
}

/// The title of the notification for a transition of `site`.
pub open spec fn notification_title(site: Seq<char>, is_down: bool) -> Seq<char> {
    if is_down {
        "🚨 site down: "@ + site
    } else {
        " 👍 site recovered: "@ + site
    }
}

/// The body of the notification for a transition of `site`.
pub open spec fn notification_body(site: Seq<char>, is_down: bool, status: Seq<char>) -> Seq<char> {
    if is_down {
        site + " is down! status: "@ + status
    } else {
        site + " is up! status: "@ + status
    }
}

/// The audit line for a notification as a whole: what was announced and
/// whether anything delivered it.
pub open spec fn attempt_record(
    timestamp: Seq<char>,
    site: Seq<char>,
    is_down: bool,
    status: Seq<char>,
    error: Option<Seq<char>>,
) -> Seq<char> {
    let state = if is_down {
        "DOWN"@
    } else {
        "UP"@
    };
    match error {
        None => "["@ + timestamp + "] Notification sent: "@ + site + " is "@ + state + " ("@
            + status + ")"@,
        Some(e) => "["@ + timestamp + "] Notification failed: "@ + site + " is "@ + state + " ("@
            + status + "). Error: "@ + e,
    }
}

/// A line of the audit log: the time in brackets, then the message.
pub open spec fn stamped_line(timestamp: Seq<char>, message: Seq<char>) -> Seq<char> {
    "["@ + timestamp + "] "@ + message + "\n"@
}

impl Backend {
    /// The name under which the backend appears in the audit log.
    pub fn name(&self) -> (name: &'static str)
        ensures
            name@ == backend_name(*self),
    {
        match self {
            Backend::Notifica => "Notifica",
            Backend::Console => "Console",
        }
    }
}

impl Backend {
    /// The audit line that announces a try of this backend.
    pub fn trying_text(&self) -> (line: String)
        ensures
            line@ == trying_line(*self),
    {
        concat2("Trying notifier: ", self.name())
    }

    /// The audit line that says how a try of this backend went: `error` is
    /// `None` for a delivery and the reason of the failure otherwise.
    pub fn result_text(&self, error: Option<&str>) -> (line: String)
        ensures
            line@ == result_line(
                *self,
                match error {
                    Some(e) => Some(e@),
                    None => None,
                },
            ),
    {
        match error {
            None => concat2("Notification successful with ", self.name()),
            Some(e) => {
                let mut line = concat2("Notification with ", self.name());
                line.append(" failed: ");
                line.append(e);
                line
            },
        }
    }
}

/// The audit line that opens a dispatch of the message.
pub fn opening_text(title: &str, body: &str) -> (line: String)
    ensures
        line@ == opening_line(title@, body@),
{
    let mut line = String::from_str("Attempting to send notification: '");
    line.append(title);
    line.append("' - '");
    line.append(body);
    line.append("'");
    line
}

/// The audit line that closes a dispatch in which every backend failed.
pub fn closing_text() -> (line: &'static str)
    ensures
        line@ == closing_line(),
{
    "All notification methods failed"
}

impl Delivery {
    /// The error of the notification as a whole: none if a backend delivered
    /// it, and that every method failed otherwise.
    pub fn error(&self) -> (error: Option<&'static str>)
        ensures
            error is None <==> self.delivered,
            error is Some ==> error->0@ == closing_line(),
    {
        if self.delivered {
            None
        } else {
            Some(closing_text())
        }
    }
}

impl NotifyMethod {
    /// The method that a name on the command line stands for. Only
    /// notifications on the device are supported, so every name gives that.
    pub fn from_name(_name: &str) -> (method: NotifyMethod)
        ensures
            method == NotifyMethod::Device,
    {
        NotifyMethod::Device
    }
}

impl From<&str> for NotifyMethod {
    fn from(value: &str) -> (method: NotifyMethod) {
        NotifyMethod::from_name(value)
    }
}

impl vstd::std_specs::convert::FromSpecImpl<&str> for NotifyMethod {
    open spec fn obeys_from_spec() -> bool {
        true
    }

    open spec fn from_spec(value: &str) -> NotifyMethod {
        NotifyMethod::Device
    }
}

impl Attempt {
    /// A copy of this attempt.
    pub fn duplicate(&self) -> (copy: Attempt)
        ensures
            copy@ == self@,
    {
        Attempt {
            backend: self.backend,
            error: match &self.error {
                Some(e) => Some(e.clone()),
                None => None,
            },
        }
    }
}

/// Composes the title of the notification for a transition of `site`.
pub fn compose_title(site: &str, is_down: bool) -> (title: String)
    ensures
        title@ == notification_title(site@, is_down),
{
    if is_down {
        concat2("🚨 site down: ", site)
    } else {
        concat2(" 👍 site recovered: ", site)
    }
}

/// Composes the body of the notification for a transition of `site`.
pub fn compose_body(site: &str, is_down: bool, status: &str) -> (body: String)
    ensures
        body@ == notification_body(site@, is_down, status@),
{
    let mut body = String::from_str(site);
    if is_down {
        body.append(" is down! status: ");
    } else {
        body.append(" is up! status: ");
    }
    body.append(status);
    body
}

/// Composes the audit line for a notification as a whole: `error` is `None`
/// if the notification was delivered, and the reason otherwise.
pub fn log_notification_attempt(
    timestamp: &str,
    site: &str,
    is_down: bool,
    status: &str,
    error: Option<&str>,
) -> (line: String)
    ensures
        line@ == attempt_record(
            timestamp@,
            site@,
            is_down,
            status@,
            match error {
                Some(e) => Some(e@),
                None => None,
            },
        ),
{
    let mut line = String::from_str("[");
    line.append(timestamp);
    match error {
        None => {
            line.append("] Notification sent: ");
        },
        Some(_) => {
            line.append("] Notification failed: ");
        },
    }
    line.append(site);
    line.append(" is ");
    if is_down {
        line.append("DOWN");
    } else {
        line.append("UP");
    }
    line.append(" (");
    line.append(status);
    match error {
        None => {
            line.append(")");
        },
        Some(e) => {
            line.append("). Error: ");
            line.append(e);
        },
    }
    line
}

/// Puts the time in front of a message, as the audit log holds it.
pub fn stamp(timestamp: &str, message: &str) -> (line: String)
    ensures
        line@ == stamped_line(timestamp@, message@),
{
    let mut line = String::from_str("[");
    line.append(timestamp);
    line.append("] ");
    line.append(message);
    line.append("\n");
    line
}

/// Each attempt holds what `deliver` returned when it was handed the
/// backend at the attempt's position in `chain`, the title and the body.
pub open spec fn handed_to<F: Fn(Backend, &str, &str) -> Result<(), String>>(
    deliver: F,
    chain: Seq<Backend>,
    title: &str,
    body: &str,
    attempts: Seq<Attempt>,
) -> bool {
    forall|i: int|
        0 <= i < attempts.len() ==> deliver.ensures(
            (chain[i], title, body),
            attempt_result(#[trigger] attempts[i]),
        )
}

/// What the backend of an attempt returned.
pub open spec fn attempt_result(attempt: Attempt) -> Result<(), String> {
    match attempt.error {
        None => Ok(()),
        Some(e) => Err(e),
    }
}

impl NotificationService {
    /// The chain of backends, in the order in which they are tried.
    pub closed spec fn view(&self) -> Seq<Backend> {
        self.notifiers@
    }

    /// A service with the default chain: the native service first, the
    /// console as a fallback.
    pub fn new() -> (service: NotificationService)
        ensures
            service@ == default_chain(),
    {
        let mut service = NotificationService { notifiers: Vec::new() };
        service.add_notifier(Backend::Notifica);
        service.add_notifier(Backend::Console);
        assert(service@ =~= default_chain());
        service
    }

    /// A service with no backend at all.
    pub fn empty() -> (service: NotificationService)
        ensures
            service@ == Seq::<Backend>::empty(),
    {
        NotificationService { notifiers: Vec::new() }
    }

    /// Puts `notifier` at the end of the chain.
    pub fn add_notifier(&mut self, notifier: Backend)
        ensures
            final(self)@ == old(self)@.push(notifier),
    {
        self.notifiers.push(notifier);
    }

    /// The chain of backends, in the order in which they are tried.
    pub fn notifiers(&self) -> (chain: Vec<Backend>)
        ensures
            chain@ == self@,
    {
        self.notifiers.clone()
    }

    /// Opens a dispatch of the message over this service's chain.
    pub fn begin(&self, title: &str, body: &str) -> (dispatch: Dispatch)
        ensures
            dispatch.title() == title@,
            dispatch.body() == body@,
            dispatch.backends() == self@,
            dispatch.attempt_seq() == Seq::<Attempt>::empty(),
    {
        Dispatch {
            title: String::from_str(title),
            body: String::from_str(body),
            backends: self.notifiers.clone(),
            attempts: Vec::new(),
        }
    }

    /// Sends a notification: tries the backends in order, through `deliver`,
    /// until one delivers or all have failed. A failure of one backend is
    /// written down and the next one is tried; if all fail, the result says
    /// so and nothing else happens.
    ///
    /// The course is that of [`Dispatch`]: each backend is handed the title
    /// and the body as given, and each attempt holds what `deliver` returned
    /// for it.
    pub fn send_notification<F: Fn(Backend, &str, &str) -> Result<(), String>>(
        &self,
        title: &str,
        body: &str,
        deliver: F,
    ) -> (delivery: Delivery)
        requires
            forall|b: Backend| deliver.requires((b, title, body)),
        ensures
            is_course(self@, attempt_views(delivery.attempts@)),
            finished(self@, attempt_views(delivery.attempts@)),
            delivery.delivered == delivered(attempt_views(delivery.attempts@)),
            handed_to(deliver, self@, title, body, delivery.attempts@),
            line_views(delivery.log@) == dispatch_log(
                title@,
                body@,
                self@,
                attempt_views(delivery.attempts@),
            ),
    {
        let mut dispatch = self.begin(title, body);
        while !dispatch.is_finished()
            invariant
                dispatch.title() == title@,
                dispatch.body() == body@,
                dispatch.backends() == self@,
                is_course(self@, dispatch.attempts()),
                forall|b: Backend| deliver.requires((b, title, body)),
                forall|i: int|
                    0 <= i < dispatch.attempt_seq().len() ==> deliver.ensures(
                        (self@[i], title, body),
                        attempt_result(#[trigger] dispatch.attempt_seq()[i]),
                    ),
            decreases self@.len() - dispatch.attempts().len(),
        {
            let backend = dispatch.current();
            let result = deliver(backend, title, body);
            let ghost before = dispatch.attempt_seq();
            let ghost answer = result;
            dispatch.record(result);
            proof {
                let after = dispatch.attempt_seq();
                assert(after.len() == before.len() + 1);
                let made = after[before.len() as int];
                if answer is Ok {
                    assert(made.error is None);
                    assert(answer->Ok_0 == ());
                } else {
                    assert(made.error == Some(answer->Err_0));
                }
                assert(attempt_result(made) == answer);
                assert forall|i: int| 0 <= i < after.len() implies deliver.ensures(
                    (self@[i], title, body),
                    attempt_result(#[trigger] after[i]),
                ) by {
                    if i < before.len() {
                        assert(after[i] == before[i]);
                    }
                }
            }
        }
        dispatch.finish()
    }
}

impl Dispatch {
    /// The title of the message.
    pub closed spec fn title(&self) -> Seq<char> {
        self.title@
    }

    /// The body of the message.
    pub closed spec fn body(&self) -> Seq<char> {
        self.body@
    }

    /// The chain this dispatch goes through.
    pub closed spec fn backends(&self) -> Seq<Backend> {
        self.backends@
    }

    /// The attempts made so far, oldest first.
    pub closed spec fn attempt_seq(&self) -> Seq<Attempt> {
        self.attempts@
    }

    /// The contents of the attempts made so far, oldest first.
    pub open spec fn attempts(&self) -> Seq<AttemptView> {
        attempt_views(self.attempt_seq())
    }

    /// Tells whether nothing is left to try.
    pub fn is_finished(&self) -> (done: bool)
        ensures
            done == finished(self.backends(), self.attempts()),
    {
        let n = self.attempts.len();
        proof {
            if n > 0 {
                assert(self.attempts().last() == self.attempts@[n - 1]@);
            }
        }
        if n >= self.backends.len() {
            true
        } else if n > 0 {
            self.attempts[n - 1].error.is_none()
        } else {
            false
        }
    }

    /// Tells whether a backend delivered the message.
    pub fn is_delivered(&self) -> (yes: bool)
        ensures
            yes == delivered(self.attempts()),
    {
        let n = self.attempts.len();
        proof {
            if n > 0 {
                assert(self.attempts().last() == self.attempts@[n - 1]@);
            }
        }
        n > 0 && self.attempts[n - 1].error.is_none()
    }

    /// The backend to try now, or `None` when nothing is left to try.
    pub fn next(&self) -> (backend: Option<Backend>)
        ensures
            backend == if finished(self.backends(), self.attempts()) {
                None
            } else {
                Some(self.backends()[self.attempts().len() as int])
            },
    {
        if self.is_finished() {
            None
        } else {
            Some(self.backends[self.attempts.len()])
        }
    }

    /// The backend to try now.
    pub fn current(&self) -> (backend: Backend)
        requires
            !finished(self.backends(), self.attempts()),
        ensures
            backend == self.backends()[self.attempts().len() as int],
    {
        self.backends[self.attempts.len()]
    }

    /// Takes the result of trying the backend that [`Dispatch::next`] named.
    /// The attempt is added to the record. Once the dispatch is finished,
    /// further results are ignored.
    pub fn record(&mut self, result: Result<(), String>)
        ensures
            final(self).title() == old(self).title(),
            final(self).body() == old(self).body(),
            final(self).backends() == old(self).backends(),
            finished(old(self).backends(), old(self).attempts()) ==> final(self).attempt_seq() == old(
                self,
            ).attempt_seq(),
            !finished(old(self).backends(), old(self).attempts()) ==> final(self).attempt_seq()
                == old(self).attempt_seq().push(
                (Attempt {
                    backend: old(self).backends()[old(self).attempts().len() as int],
                    error: match result {
                        Ok(_) => None,
                        Err(e) => Some(e),
                    },
                }),
            ),
            is_course(old(self).backends(), old(self).attempts()) ==> is_course(
                final(self).backends(),
                final(self).attempts(),
            ),
    {
        if self.is_finished() {
            return ;
        }
        let backend = self.backends[self.attempts.len()];
        let error = match result {
            Ok(_) => None,
            Err(e) => Some(e),
        };
        let ghost before = self.attempts();
        let ghost reason = if error is Some {
            Some(error->0@)
        } else {
            None
        };
        self.attempts.push(Attempt { backend, error });
        proof {
            assert(self.attempts() =~= before.push(AttemptView { backend, error: reason }));
            if is_course(self.backends(), before) {
                lemma_course_grows(self.backends(), before, reason);
            }
        }
    }

    /// The lines that the dispatch has earned in the audit log so far.
    pub fn log(&self) -> (lines: Vec<String>)
        ensures
            line_views(lines@) == dispatch_log(
                self.title(),
                self.body(),
                self.backends(),
                self.attempts(),
            ),
    {
        let mut lines: Vec<String> = Vec::new();
        lines.push(opening_text(self.title.as_str(), self.body.as_str()));
        let ghost all = self.attempts();
        let ghost first = seq![opening_line(self.title(), self.body())];
        proof {
            assert(all.take(0) =~= Seq::<AttemptView>::empty());
            assert(line_views(lines@) =~= first + attempts_lines(all.take(0)));
        }
        let mut i: usize = 0;
        while i < self.attempts.len()
            invariant
                i <= self.attempts.len(),
                all == self.attempts(),
                first == seq![opening_line(self.title(), self.body())],
                line_views(lines@) == first + attempts_lines(all.take(i as int)),
            decreases self.attempts.len() - i,
        {
            let attempt = &self.attempts[i];
            let trying = attempt.backend.trying_text();
            let outcome = match &attempt.error {
                None => attempt.backend.result_text(None),
                Some(e) => attempt.backend.result_text(Some(e.as_str())),
            };
            let ghost before = line_views(lines@);
            lines.push(trying);
            lines.push(outcome);
            proof {
                let grown = all.take(i + 1);
                assert(grown.drop_last() =~= all.take(i as int));
                assert(grown.last() == all[i as int]);
                assert(all[i as int] == attempt@);
                assert(line_views(lines@) =~= before + attempt_lines(attempt@));
                assert(before + attempt_lines(attempt@) =~= first + attempts_lines(grown));
            }
            i += 1;
        }
        proof {
            assert(all.take(self.attempts.len() as int) =~= all);
        }
        if self.attempts.len() >= self.backends.len() && !self.is_delivered() {
            let ghost before = line_views(lines@);
            lines.push(String::from_str(closing_text()));
            proof {
                assert(line_views(lines@) =~= before + seq![closing_line()]);
            }
        } else {
            proof {
                assert(line_views(lines@) =~= line_views(lines@) + Seq::<Seq<char>>::empty());
            }
        }
        lines
    }

    /// Closes the dispatch and hands out what happened.
    pub fn finish(self) -> (delivery: Delivery)
        ensures
            delivery.attempts@ == self.attempt_seq(),
            delivery.delivered == delivered(self.attempts()),
            line_views(delivery.log@) == dispatch_log(
                self.title(),
                self.body(),
                self.backends(),
                self.attempts(),
            ),
    {
        let delivered = self.is_delivered();
        let log = self.log();
        Delivery { delivered, attempts: self.attempts, log }
    }
}

/// Announces a transition of `site`: composes the message and sends it
/// through the default chain. A notification that no backend could deliver
/// is reported in the result and is no failure of the caller.
pub fn send_notification<F: Fn(Backend, &str, &str) -> Result<(), String>>(
    site: &str,
    is_down: bool,
    status: &str,
    deliver: F,
) -> (delivery: Delivery)
    requires
        forall|b: Backend, title: &str, body: &str| deliver.requires((b, title, body)),
    ensures
        is_course(default_chain(), attempt_views(delivery.attempts@)),
        finished(default_chain(), attempt_views(delivery.attempts@)),
        delivery.delivered == delivered(attempt_views(delivery.attempts@)),
        exists|title: &str, body: &str|
            title@ == notification_title(site@, is_down) && body@ == notification_body(
                site@,
                is_down,
                status@,
            ) && #[trigger] handed_to(deliver, default_chain(), title, body, delivery.attempts@),
        line_views(delivery.log@) == dispatch_log(
            notification_title(site@, is_down),
            notification_body(site@, is_down, status@),
            default_chain(),
            attempt_views(delivery.attempts@),
        ),
{
    let title = compose_title(site, is_down);
    let body = compose_body(site, is_down, status);
    let service = NotificationService::new();
    let title_text = title.as_str();
    let body_text = body.as_str();
    let delivery = service.send_notification(title_text, body_text, deliver);
    assert(handed_to(deliver, default_chain(), title_text, body_text, delivery.attempts@));
    delivery
}

/// Every attempt earns two lines in the audit log.
pub proof fn lemma_two_lines_per_attempt(attempts: Seq<AttemptView>)
    ensures
        attempts_lines(attempts).len() == 2 * attempts.len(),
    decreases attempts.len(),
{
    if attempts.len() > 0 {
        lemma_two_lines_per_attempt(attempts.drop_last());
    }
}

/// If the first `k` backends of the chain fail and the next one delivers,
/// the dispatch ends as delivered after exactly `k + 1` attempts, and the
/// audit log holds exactly those attempts after its opening line.
pub proof fn lemma_chain_stops_at_first_success(
    title: Seq<char>,
    body: Seq<char>,
    backends: Seq<Backend>,
    attempts: Seq<AttemptView>,
    answers: Seq<Option<Seq<char>>>,
    k: int,
)
    requires
        is_course(backends, attempts),
        finished(backends, attempts),
        answered_by(attempts, answers),
        answers.len() == backends.len(),
        0 <= k < backends.len(),
        forall|i: int| 0 <= i < k ==> (#[trigger] answers[i]) is Some,
        answers[k] is None,
    ensures
        delivered(attempts),
        attempts.len() == k + 1,
        dispatch_log(title, body, backends, attempts) == seq![opening_line(title, body)]
            + attempts_lines(attempts),
        dispatch_log(title, body, backends, attempts).len() == 1 + 2 * (k + 1),
{
    let n = attempts.len() as int;
    if n > k + 1 {
        assert(attempts[k].error is Some);
        assert(attempts[k].error == answers[k]);
    }
    if n <= k {
        assert(delivered(attempts));
        assert(attempts.last() == attempts[n - 1]);
        assert(attempts[n - 1].error == answers[n - 1]);
        assert(answers[n - 1] is Some);
    }
    assert(attempts.last() == attempts[k]);
    assert(attempts[k].error == answers[k]);
    lemma_two_lines_per_attempt(attempts);
    assert(dispatch_log(title, body, backends, attempts) =~= seq![opening_line(title, body)]
        + attempts_lines(attempts));
}

/// If every backend of the chain fails, the dispatch ends as not delivered
/// after exactly one attempt per backend, and the audit log holds those
/// attempts and the closing line that says so.
pub proof fn lemma_chain_exhausted(
    title: Seq<char>,
    body: Seq<char>,
    backends: Seq<Backend>,
    attempts: Seq<AttemptView>,
    answers: Seq<Option<Seq<char>>>,
)
    requires
        is_course(backends, attempts),
        finished(backends, attempts),
        answered_by(attempts, answers),
        answers.len() == backends.len(),
        forall|i: int| 0 <= i < answers.len() ==> (#[trigger] answers[i]) is Some,
    ensures
        !delivered(attempts),
        attempts.len() == backends.len(),
        dispatch_log(title, body, backends, attempts).len() == 1 + 2 * backends.len() + 1,
        dispatch_log(title, body, backends, attempts).last() == closing_line(),
{
    let n = attempts.len() as int;
    if n > 0 {
        assert(attempts.last() == attempts[n - 1]);
        assert(attempts[n - 1].error == answers[n - 1]);
        assert(answers[n - 1] is Some);
    }
    lemma_two_lines_per_attempt(attempts);
}

/// A dispatch that goes on by the rules stays a course: from an empty record,
/// each recorded result extends the record by the attempt on the next
/// backend, and nothing is tried after a delivery.
pub proof fn lemma_course_grows(backends: Seq<Backend>, attempts: Seq<AttemptView>, error: Option<
    Seq<char>,
>)
    requires
        is_course(backends, attempts),
        !finished(backends, attempts),
    ensures
        is_course(
            backends,
            attempts.push((AttemptView { backend: backends[attempts.len() as int], error })),
        ),
        is_course(backends, Seq::<AttemptView>::empty()),
{
    let grown = attempts.push(AttemptView { backend: backends[attempts.len() as int], error });
    assert forall|i: int| 0 <= i < grown.len() - 1 implies (#[trigger] grown[i]).error is Some by {
        assert(grown[i] == attempts[i]);
        if i == attempts.len() - 1 {
            assert(attempts.last() == attempts[i]);
        }
    }
    assert forall|i: int| 0 <= i < grown.len() implies (#[trigger] grown[i]).backend
        == backends[i] by {
        if i < attempts.len() {
            assert(grown[i] == attempts[i]);
        }
    }
}

} // verus!
