//! The URL field and its validator.
//!
//! Every edit is a submission: it takes the place of whatever was under way and
//! starts the quiet period anew. Only when the period has passed without
//! another edit is the URL probed, and only the answer to that probe is shown.
//! At any moment at most one timer is waited for and at most one probe is in
//! flight.

use crate::utils::debounce::{lemma_tokens_in_turn, token_at, token_count, DebouncedInput};
use crate::utils::http::{is_web_scheme, parse_scheme, scheme_is_web, url_scheme};
use vstd::prelude::*;

verus! {

/// The quiet period of the URL field, in milliseconds.
pub const QUIET_PERIOD_MS: u64 = 500;

/// What the URL field is told.
#[derive(Debug, Clone, PartialEq, Eq)]
pub enum UrlInputMessage {
    /// The user has typed: the whole text of the field.
    Edit(String),
    /// The user asks for the URL to be added.
    Add,
    /// The probe with this token has answered: the kind of content, or none
    /// where the URL is not confirmed as downloadable.
    Validated(u64, Option<String>),
    /// The timer with this token has fired, for this text.
    CheckValidation(u64, String),
    /// What the clipboard held when the field was opened.
    ClipboardContent(Option<String>),
}

/// What a [`UrlInputMessage`] says, with its texts as sequences of
/// characters.
pub enum UrlInputMessageView {
    Edit(Seq<char>),
    Add,
    Validated(u64, Option<Seq<char>>),
    CheckValidation(u64, Seq<char>),
    ClipboardContent(Option<Seq<char>>),
}

impl View for UrlInputMessage {
    type V = UrlInputMessageView;

    open spec fn view(&self) -> UrlInputMessageView {
        match *self {
            UrlInputMessage::Edit(url) => UrlInputMessageView::Edit(url@),
            UrlInputMessage::Add => UrlInputMessageView::Add,
            UrlInputMessage::Validated(token, content_type) => UrlInputMessageView::Validated(
                token,
                content_type.deep_view(),
            ),
            UrlInputMessage::CheckValidation(token, url) => UrlInputMessageView::CheckValidation(
                token,
                url@,
            ),
            UrlInputMessage::ClipboardContent(content) => UrlInputMessageView::ClipboardContent(
                content.deep_view(),
            ),
        }
    }
}

/// What the driver of the URL field has to do.
#[derive(Debug, Clone, PartialEq, Eq)]
pub enum UrlInputAction {
    Nothing,
    /// Stop the timer and the probe that are named, then start a timer:
    /// after `delay_ms` it comes back as `CheckValidation(token, url)`.
    Schedule {
        abort_timer: Option<u64>,
        abort_probe: Option<u64>,
        token: u64,
        delay_ms: u64,
        url: String,
    },
    /// Probe `url`; the answer comes back as `Validated(token, ..)`.
    Probe { token: u64, url: String },
}

/// What a [`UrlInputAction`] asks for, with its text as a sequence of
/// characters.
pub enum UrlInputActionView {
    Nothing,
    Schedule {
        abort_timer: Option<u64>,
        abort_probe: Option<u64>,
        token: u64,
        delay_ms: u64,
        url: Seq<char>,
    },
    Probe { token: u64, url: Seq<char> },
}

impl View for UrlInputAction {
    type V = UrlInputActionView;

    open spec fn view(&self) -> UrlInputActionView {
        match *self {
            UrlInputAction::Nothing => UrlInputActionView::Nothing,
            UrlInputAction::Schedule { abort_timer, abort_probe, token, delay_ms, url } => {
                UrlInputActionView::Schedule { abort_timer, abort_probe, token, delay_ms, url: url@ }
            },
            UrlInputAction::Probe { token, url } => UrlInputActionView::Probe { token, url: url@ },
        }
    }
}

/// The URL field.
#[derive(Debug, Clone, PartialEq, Eq)]
pub struct UrlInput {
    /// The text of the field.
    pub value: String,
    /// The kind of content that the last probe found for that text, if it
    /// found the URL downloadable.
    pub content_type: Option<String>,
    pub debouncer: DebouncedInput,
    /// Whether an answer is still waited for.
    pub is_validating: bool,
    /// The token of the probe in flight, if one is.
    pub validation: Option<u64>,
}

/// What a [`UrlInput`] holds, with its texts as sequences of characters.
pub struct UrlInputView {
    pub value: Seq<char>,
    pub content_type: Option<Seq<char>>,
    pub debouncer: DebouncedInput,
    pub is_validating: bool,
    pub validation: Option<u64>,
}

impl View for UrlInput {
    type V = UrlInputView;

    open spec fn view(&self) -> UrlInputView {
        UrlInputView {
            value: self.value@,
            content_type: self.content_type.deep_view(),
            debouncer: self.debouncer,
            is_validating: self.is_validating,
            validation: self.validation,
        }
    }
}

/// The scheme that decides whether what the clipboard held is taken: that of
/// its text read as a URL. No other message depends on one.
pub open spec fn clipboard_scheme(message: UrlInputMessageView) -> Option<Seq<char>> {
    match message {
        UrlInputMessageView::ClipboardContent(Some(content)) => url_scheme(content),
        _ => None,
    }
}

impl UrlInputView {
    /// An empty field with nothing under way.
    pub open spec fn empty() -> UrlInputView {
        UrlInputView {
            value: Seq::empty(),
            content_type: None,
            debouncer: DebouncedInput { delay_ms: QUIET_PERIOD_MS, next: 0, pending: None },
            is_validating: false,
            validation: None,
        }
    }

    /// The field after `url` is submitted, and what the driver has to do: the
    /// timer and the probe that were under way are stopped, the last answer
    /// is forgotten, and a new timer starts.
    pub open spec fn submitted(self, url: Seq<char>) -> (UrlInputView, UrlInputActionView) {
        (
            UrlInputView {
                value: url,
                content_type: None,
                debouncer: self.debouncer.debounced(),
                is_validating: true,
                validation: None,
            },
            UrlInputActionView::Schedule {
                abort_timer: self.debouncer.pending,
                abort_probe: self.validation,
                token: self.debouncer.next,
                delay_ms: self.debouncer.delay_ms,
                url,
            },
        )
    }

    /// The field after `message`, and what the driver has to do.
    ///
    /// An edit is a submission. What the clipboard held is one too, but only
    /// where it is not empty and `scheme`, the scheme of its text read as a
    /// URL, is `http` or `https`; anything else is passed over in silence. A
    /// timer is heeded only if it is the one waited for: then its URL is
    /// probed. An answer is taken only if it is that of the probe in flight.
    pub open spec fn updated(self, message: UrlInputMessageView, scheme: Option<Seq<char>>) -> (
        UrlInputView,
        UrlInputActionView,
    ) {
        match message {
            UrlInputMessageView::Edit(url) => self.submitted(url),
            UrlInputMessageView::ClipboardContent(Some(content)) => if content.len() > 0
                && is_web_scheme(scheme) {
                self.submitted(content)
            } else {
                (self, UrlInputActionView::Nothing)
            },
            UrlInputMessageView::CheckValidation(token, url) => if self.debouncer.pending == Some(
                token,
            ) {
                (
                    UrlInputView {
                        debouncer: self.debouncer.elapsed(token).0,
                        validation: Some(token),
                        ..self
                    },
                    UrlInputActionView::Probe { token, url },
                )
            } else {
                (self, UrlInputActionView::Nothing)
            },
            UrlInputMessageView::Validated(token, content_type) => if self.validation == Some(
                token,
            ) {
                (
                    UrlInputView { content_type, is_validating: false, validation: None, ..self },
                    UrlInputActionView::Nothing,
                )
            } else {
                (self, UrlInputActionView::Nothing)
            },
            _ => (self, UrlInputActionView::Nothing),
        }
    }

    /// Whether the URL may be added: the last probe has answered, it found
    /// the URL downloadable, and the field is not empty.
    pub open spec fn add_enabled(self) -> bool {
        !self.is_validating && self.content_type is Some && self.value.len() > 0
    }

    /// The field after the edits `urls`, one after the other, with no timer
    /// firing in between.
    pub open spec fn edited(self, urls: Seq<Seq<char>>) -> UrlInputView
        decreases urls.len(),
    {
        if urls.len() == 0 {
            self
        } else {
            self.edited(urls.drop_last()).submitted(urls.last()).0
        }
    }
}

/// After a submission nothing of what went before can show: whichever probe
/// answers now, its answer is dropped, and no timer but the new one is heeded.
pub proof fn lemma_submission_supersedes(
    input: UrlInputView,
    url: Seq<char>,
    token: u64,
    answer: Option<Seq<char>>,
    text: Seq<char>,
)
    ensures
        ({
            let after = input.submitted(url).0;
            &&& after.updated(UrlInputMessageView::Validated(token, answer), None) == (
                after,
                UrlInputActionView::Nothing,
            )
            &&& token != input.debouncer.next ==> after.updated(
                UrlInputMessageView::CheckValidation(token, text),
                None,
            ) == (after, UrlInputActionView::Nothing)
        }),
{
}

/// After a burst of edits the field holds the last of them and waits for the
/// timer of the last.
pub proof fn lemma_edits_in_turn(input: UrlInputView, urls: Seq<Seq<char>>)
    requires
        urls.len() > 0,
    ensures
        input.edited(urls).value == urls.last(),
        input.edited(urls).content_type is None,
        input.edited(urls).is_validating,
        input.edited(urls).validation is None,
        input.edited(urls).debouncer == input.debouncer.debounced_times(urls.len()),
    decreases urls.len(),
{
    let n = urls.len();
    if n > 1 {
        lemma_edits_in_turn(input, urls.drop_last());
    } else {
        assert(input.edited(urls.drop_last()) == input);
        assert(input.debouncer.debounced_times(0) == input.debouncer);
    }
    assert(input.debouncer.debounced_times(n) == input.debouncer.debounced_times(
        (n - 1) as nat,
    ).debounced());
}

/// Of a burst of edits exactly one is probed, the last. When the timers fire,
/// that of every earlier edit is turned away and changes nothing; that of the
/// last edit has its URL probed. The answer to that probe is then the one
/// shown.
pub proof fn lemma_only_last_edit_is_probed(
    input: UrlInputView,
    urls: Seq<Seq<char>>,
    earlier: int,
    answer: Option<Seq<char>>,
)
    requires
        0 <= earlier < urls.len() - 1,
        urls.len() <= token_count(),
    ensures
        ({
            let after = input.edited(urls);
            let stale = token_at(input.debouncer.next, earlier as nat);
            let last = token_at(input.debouncer.next, (urls.len() - 1) as nat);
            let probing = after.updated(
                UrlInputMessageView::CheckValidation(last, urls.last()),
                None,
            );
            let shown = probing.0.updated(UrlInputMessageView::Validated(last, answer), None).0;
            &&& after.updated(UrlInputMessageView::CheckValidation(stale, urls[earlier]), None)
                == (after, UrlInputActionView::Nothing)
            &&& probing.1 == UrlInputActionView::Probe { token: last, url: urls.last() }
            &&& probing.0.updated(UrlInputMessageView::Validated(stale, answer), None) == (
                probing.0,
                UrlInputActionView::Nothing,
            )
            &&& shown.content_type == answer
            &&& shown.value == urls.last()
            &&& !shown.is_validating
        }),
{
    lemma_edits_in_turn(input, urls);
    lemma_tokens_in_turn(input.debouncer, urls.len());
}

impl Default for UrlInput {
    fn default() -> (input: UrlInput)
        ensures
            input@ == UrlInputView::empty(),
    {
        UrlInput {
            value: String::new(),
            content_type: None,
            debouncer: DebouncedInput::new(QUIET_PERIOD_MS),
            is_validating: false,
            validation: None,
        }
    }
}

impl UrlInput {
    /// Takes `url` as the text to validate.
    fn submit(&mut self, url: String) -> (action: UrlInputAction)
        ensures
            (final(self)@, action@) == old(self)@.submitted(url@),
    {
        let abort_probe = self.validation;
        self.validation = None;
        self.content_type = None;
        self.is_validating = true;
        self.value = url.clone();
        let timer = self.debouncer.debounce(url);
        UrlInputAction::Schedule {
            abort_timer: timer.abort,
            abort_probe,
            token: timer.token,
            delay_ms: timer.delay_ms,
            url: timer.value,
        }
    }

    /// Takes `message`, with `scheme` being the scheme of the clipboard's text
    /// read as a URL where the message brings such a text.
    pub fn update_with(&mut self, message: UrlInputMessage, scheme: Option<String>) -> (action:
        UrlInputAction)
        ensures
            (final(self)@, action@) == old(self)@.updated(message@, scheme.deep_view()),
    {
        match message {
            UrlInputMessage::Edit(url) => self.submit(url),
            UrlInputMessage::ClipboardContent(Some(content)) => {
                if !content.as_str().is_empty() && scheme_is_web(&scheme) {
                    self.submit(content)
                } else {
                    UrlInputAction::Nothing
                }
            },
            UrlInputMessage::CheckValidation(token, url) => {
                if self.debouncer.fire(token) {
                    self.validation = Some(token);
                    UrlInputAction::Probe { token, url }
                } else {
                    UrlInputAction::Nothing
                }
            },
            UrlInputMessage::Validated(token, content_type) => {
                let awaited = match self.validation {
                    Some(probe) => probe == token,
                    None => false,
                };
                if awaited {
                    self.content_type = content_type;
                    self.is_validating = false;
                    self.validation = None;
                }
                UrlInputAction::Nothing
            },
            _ => UrlInputAction::Nothing,
        }
    }

    /// Takes `message` and says what the driver has to do.
    pub fn update(&mut self, message: UrlInputMessage) -> (action: UrlInputAction)
        ensures
            (final(self)@, action@) == old(self)@.updated(message@, clipboard_scheme(message@)),
    {
        let scheme = match &message {
            UrlInputMessage::ClipboardContent(Some(content)) => parse_scheme(content.as_str()),
            _ => None,
        };
        self.update_with(message, scheme)
    }

    /// Whether the URL in the field may be added.
    pub fn add_enabled(&self) -> (enabled: bool)
        ensures
            enabled == self@.add_enabled(),
    {
        !self.is_validating && self.content_type.is_some() && !self.value.as_str().is_empty()
    }
}

} // verus!
