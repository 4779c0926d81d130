//! The desktop's side of a signing request: the single request slot, the PDF
//! review shown while the request is reviewed, and the commands the review
//! window sends back. Locking, channels and the window toolkit are the
//! caller's; every terminal response is handed back to it.

use vstd::prelude::*;

use crate::byte_io::{wipe_bytes, wipe_string};
use crate::local_ipc::IpcRequest;
use crate::text::str_eq;
use crate::protocol::{
    is_cancellation_for, is_error_for, CancellationReason, ErrorCode, SignCancelled, SignError,
    TerminalResponse,
};
use crate::request_machine::{
    busy_message, disconnect_message, request_timeout, signing_started, timeout_message, Busy,
    ClearRequest, Elapsed, MachineView, RequestMachine, RequestState, RequestToken,
};

verus! {

/// Status line shown while no PDF renderer is configured.
pub const PDF_REVIEW_PENDING_MESSAGE: &'static str =
    "PDF review is unavailable until the PDFium renderer is configured.";

/// Where the preparation of a review stands.
#[derive(Clone, Copy, Debug, PartialEq, Eq, Structural)]
pub enum PdfReviewStatus {
    Preparing,
    Ready,
    Failed,
}

/// Size of one rendered page, as the review window lists it.
#[derive(Clone, Copy, Debug, PartialEq, Eq, Structural)]
pub struct PdfPageMetadata {
    pub page_number: u32,
    pub width: u32,
    pub height: u32,
}

/// What the review window shows about the active request.
#[derive(Clone, Debug, PartialEq, Eq)]
pub struct PdfReview {
    pub request_id: String,
    pub website_origin: String,
    pub document_name: String,
    pub document_size_bytes: u64,
    pub status: PdfReviewStatus,
    pub status_message: Option<String>,
    pub pages: Vec<PdfPageMetadata>,
}

/// Abstract contents of a [`PdfReview`].
pub struct PdfReviewView {
    pub request_id: Seq<char>,
    pub website_origin: Seq<char>,
    pub document_name: Seq<char>,
    pub document_size_bytes: u64,
    pub status: PdfReviewStatus,
    pub status_message: Option<Seq<char>>,
    pub pages: Seq<PdfPageMetadata>,
}

/// View of an optional text.
pub open spec fn opt_text(text: Option<String>) -> Option<Seq<char>> {
    match text {
        Some(t) => Some(t@),
        None => None,
    }
}

impl View for PdfReview {
    type V = PdfReviewView;

    open spec fn view(&self) -> PdfReviewView {
        PdfReviewView {
            request_id: self.request_id@,
            website_origin: self.website_origin@,
            document_name: self.document_name@,
            document_size_bytes: self.document_size_bytes,
            status: self.status,
            status_message: opt_text(self.status_message),
            pages: self.pages@,
        }
    }
}

struct ReviewPage {
    metadata: PdfPageMetadata,
    png: Vec<u8>,
}

struct ReviewData {
    display: PdfReview,
    rendered_pages: Vec<ReviewPage>,
}

/// A review: what is displayed, and each rendered page with its PNG bytes.
pub struct ReviewView {
    pub display: PdfReviewView,
    pub rendered: Seq<(PdfPageMetadata, Seq<u8>)>,
}

spec fn page_view(p: ReviewPage) -> (PdfPageMetadata, Seq<u8>) {
    (p.metadata, p.png@)
}

impl View for ReviewData {
    type V = ReviewView;

    closed spec fn view(&self) -> ReviewView {
        ReviewView {
            display: self.display@,
            rendered: self.rendered_pages@.map_values(|p: ReviewPage| page_view(p)),
        }
    }
}

/// The review a freshly accepted request starts with, before any renderer
/// has looked at the document.
pub open spec fn preparing_review(request: IpcRequest) -> ReviewView {
    ReviewView {
        display: PdfReviewView {
            request_id: request.request_id@,
            website_origin: request.website_origin@,
            document_name: request.document_name@,
            document_size_bytes: request.preview_pdf@.len() as u64,
            status: PdfReviewStatus::Preparing,
            status_message: None,
            pages: Seq::empty(),
        },
        rendered: Seq::empty(),
    }
}

/// `review` once preparation has failed because no renderer is configured:
/// no pages, and the pending-configuration message.
pub open spec fn failed_review(review: ReviewView) -> ReviewView {
    ReviewView {
        display: PdfReviewView {
            status: PdfReviewStatus::Failed,
            status_message: Some(PDF_REVIEW_PENDING_MESSAGE@),
            pages: Seq::empty(),
            ..review.display
        },
        rendered: Seq::empty(),
    }
}

/// `review` once a renderer has produced `pages`.
pub open spec fn ready_review(review: ReviewView, pages: Seq<(PdfPageMetadata, Seq<u8>)>) -> ReviewView {
    ReviewView {
        display: PdfReviewView {
            status: PdfReviewStatus::Ready,
            status_message: None,
            pages: pages.map_values(|p: (PdfPageMetadata, Seq<u8>)| p.0),
            ..review.display
        },
        rendered: pages,
    }
}

impl ReviewData {
    fn preparing(request: &IpcRequest) -> (r: ReviewData)
        ensures
            r@ == preparing_review(*request),
    {
        let r = ReviewData {
            display: PdfReview {
                request_id: request.request_id.clone(),
                website_origin: request.website_origin.clone(),
                document_name: request.document_name.clone(),
                document_size_bytes: request.preview_pdf.len() as u64,
                status: PdfReviewStatus::Preparing,
                status_message: None,
                pages: Vec::new(),
            },
            rendered_pages: Vec::new(),
        };
        assert(r@.rendered =~= Seq::<(PdfPageMetadata, Seq<u8>)>::empty());
        r
    }

    fn fail_pending_configuration(&mut self)
        ensures
            final(self)@ == failed_review(old(self)@),
    {
        self.display.status = PdfReviewStatus::Failed;
        self.display.status_message = Some(PDF_REVIEW_PENDING_MESSAGE.to_owned());
        self.display.pages.clear();
        self.rendered_pages.clear();
        assert(self@.rendered =~= Seq::<(PdfPageMetadata, Seq<u8>)>::empty());
        assert(self@.display.pages =~= Seq::<PdfPageMetadata>::empty());
    }

    /// Overwrites the identifying texts and every rendered page before the
    /// review is let go.
    fn wipe(self) {
        let mut review = self;
        wipe_string(&mut review.display.request_id);
        wipe_string(&mut review.display.website_origin);
        wipe_string(&mut review.display.document_name);
        match &mut review.display.status_message {
            Some(message) => wipe_string(message),
            None => {},
        }
        let n = review.rendered_pages.len();
        let mut i: usize = 0;
        while i < n
            invariant
                n == review.rendered_pages.len(),
                i <= n,
            decreases n - i,
        {
            wipe_bytes(&mut review.rendered_pages[i].png);
            i = i + 1;
        }
    }
}

/// The request data the machine owns; it is wiped when the slot is released.
pub struct RequestData(pub IpcRequest);

impl ClearRequest for RequestData {
    /// Every field of the request is empty.
    open spec fn cleared(&self) -> bool {
        &&& self.0.request_id@.len() == 0
        &&& self.0.website_origin@.len() == 0
        &&& self.0.document_name@.len() == 0
        &&& self.0.preview_pdf@.len() == 0
        &&& self.0.byte_range_content@.len() == 0
    }

    /// Overwrites and empties every field of the request.
    fn clear(&mut self)
        ensures
            final(self).0.request_id@.len() == 0,
            final(self).0.website_origin@.len() == 0,
            final(self).0.document_name@.len() == 0,
            final(self).0.preview_pdf@.len() == 0,
            final(self).0.byte_range_content@.len() == 0,
    {
        self.0.clear();
    }
}

struct ActiveUiRequest {
    token: RequestToken,
    request_id: String,
    review: Option<ReviewData>,
}

/// The desktop's request slot and the review window's state for it.
pub struct DesktopSession {
    machine: RequestMachine<RequestData>,
    active_ui: Option<ActiveUiRequest>,
}

/// What the window knows about the active request.
pub struct UiView {
    pub token: u64,
    pub request_id: Seq<char>,
    pub review: Option<ReviewView>,
}

/// Abstract state of a [`DesktopSession`].
pub struct SessionView {
    pub machine: MachineView,
    pub ui: Option<UiView>,
}

impl SessionView {
    /// The window's request and the machine's are one and the same, and it
    /// was accepted at the session's clock origin.
    pub open spec fn wf(self) -> bool {
        match self.ui {
            None => self.machine.active is None,
            Some(u) => self.machine.active matches Some(a) && a.token == u.token && a.request_id
                == u.request_id && a.accepted_at == 0,
        }
    }

    /// The window shows the request `request_id`.
    pub open spec fn shows(self, request_id: Seq<char>) -> bool {
        self.ui matches Some(u) && u.request_id == request_id
    }

    /// The review of the shown request.
    pub open spec fn review(self) -> Option<ReviewView> {
        self.ui->0.review
    }

    /// The shown request's review has its pages.
    pub open spec fn review_ready(self) -> bool {
        self.review() matches Some(rv) && rv.display.status == PdfReviewStatus::Ready
    }

    /// The session after `request` was accepted into the idle slot: its
    /// review failed for want of a renderer.
    pub open spec fn accepted(self, request: IpcRequest) -> SessionView {
        SessionView {
            machine: self.machine.claimed(request.request_id@, 0),
            ui: Some(
                UiView {
                    token: self.machine.next_token,
                    request_id: request.request_id@,
                    review: Some(failed_review(preparing_review(request))),
                },
            ),
        }
    }

    /// The session after its request ended: both slots empty.
    pub open spec fn finished(self) -> SessionView {
        SessionView { machine: self.machine.released(), ui: None }
    }

    /// The session after the review was installed as `review`.
    pub open spec fn with_review(self, review: ReviewView) -> SessionView {
        SessionView { ui: Some(UiView { review: Some(review), ..self.ui->0 }), ..self }
    }
}

impl View for DesktopSession {
    type V = SessionView;

    closed spec fn view(&self) -> SessionView {
        SessionView {
            machine: self.machine@,
            ui: match self.active_ui {
                Some(a) => Some(
                    UiView {
                        token: a.token.value(),
                        request_id: a.request_id@,
                        review: match a.review {
                            Some(r) => Some(r@),
                            None => None,
                        },
                    },
                ),
                None => None,
            },
        }
    }
}

/// How a request may be ended from the window or its connection.
#[derive(Clone, Copy, Debug, PartialEq, Eq)]
pub enum Finish {
    Cancel(CancellationReason),
    Timeout,
    Disconnect,
}

/// Refusal when the named request is not the one shown.
pub open spec fn not_active_message() -> Seq<char> {
    "request is no longer active"@
}

/// Refusal when the shown request has no review any more.
pub open spec fn review_gone_message() -> Seq<char> {
    "PDF review is no longer active"@
}

/// Refusal when the review has no rendered pages yet.
pub open spec fn not_ready_message() -> Seq<char> {
    "PDF review is not ready"@
}

/// Refusal when no rendered page has the number asked for.
pub open spec fn page_missing_message() -> Seq<char> {
    "PDF review page is unavailable"@
}

/// Refusal when the machine rejects the move.
pub open spec fn transition_failed_message() -> Seq<char> {
    "request transition failed"@
}

/// Refusal when the machine keeps a request that is already signing.
pub open spec fn cannot_terminate_message() -> Seq<char> {
    "request cannot terminate in its current state"@
}

/// `i` is the first rendered page numbered `page_number`.
pub open spec fn first_page_at(
    pages: Seq<(PdfPageMetadata, Seq<u8>)>,
    page_number: u32,
    i: int,
) -> bool {
    &&& 0 <= i < pages.len()
    &&& pages[i].0.page_number == page_number
    &&& forall|j: int| 0 <= j < i ==> (#[trigger] pages[j]).0.page_number != page_number
}

/// The answer to a request for one page of the shown review.
pub open spec fn render_verdict(
    s: SessionView,
    request_id: Seq<char>,
    page_number: u32,
    r: Result<Seq<u8>, Seq<char>>,
) -> bool {
    if !s.shows(request_id) {
        r == Err::<Seq<u8>, Seq<char>>(not_active_message())
    } else if s.review() is None {
        r == Err::<Seq<u8>, Seq<char>>(review_gone_message())
    } else if s.review()->0.display.status != PdfReviewStatus::Ready {
        r == Err::<Seq<u8>, Seq<char>>(not_ready_message())
    } else {
        let pages = s.review()->0.rendered;
        match r {
            Ok(png) => exists|i: int| first_page_at(pages, page_number, i) && pages[i].1 == png,
            Err(m) => m == page_missing_message() && forall|i: int|
                0 <= i < pages.len() ==> (#[trigger] pages[i]).0.page_number != page_number,
        }
    }
}

/// The state a finishing move needs the request in, and what it answers.
pub open spec fn finish_verdict(
    old_s: SessionView,
    request_id: Seq<char>,
    how: Finish,
    r: Result<TerminalResponse, Seq<char>>,
) -> bool {
    if !old_s.shows(request_id) {
        r == Err::<TerminalResponse, Seq<char>>(not_active_message())
    } else if signing_started(old_s.machine.state()) {
        r == Err::<TerminalResponse, Seq<char>>(
            match how {
                Finish::Cancel(_) => transition_failed_message(),
                _ => cannot_terminate_message(),
            },
        )
    } else {
        r matches Ok(resp) && match how {
            Finish::Cancel(reason) => is_cancellation_for(resp, request_id, reason),
            Finish::Timeout => is_error_for(
                resp,
                Some(request_id),
                ErrorCode::RequestTimeout,
                timeout_message(),
            ),
            Finish::Disconnect => is_error_for(
                resp,
                Some(request_id),
                ErrorCode::ExtensionDisconnected,
                disconnect_message(),
            ),
        }
    }
}

/// View of a textual refusal.
pub open spec fn text_result<T>(r: Result<T, &'static str>) -> Result<T, Seq<char>> {
    match r {
        Ok(v) => Ok(v),
        Err(m) => Err(m@),
    }
}

/// The answer when the shared request state cannot be reached.
pub fn internal_error() -> (r: TerminalResponse)
    ensures
        is_error_for(r, None, ErrorCode::InternalError, "The request state is unavailable."@),
{
    TerminalResponse::Error(
        SignError::new(None, ErrorCode::InternalError, "The request state is unavailable.".to_owned()),
    )
}

impl Default for DesktopSession {
    /// No request.
    fn default() -> (r: Self)
        ensures
            r@.wf(),
            r@.ui is None,
            r@.machine.active is None,
            r@.machine.next_token == 1,
    {
        DesktopSession { machine: RequestMachine::default(), active_ui: None }
    }
}

impl DesktopSession {
    /// The request data in the slot.
    pub closed spec fn active_data(self) -> Option<RequestData> {
        self.machine.active_data()
    }

    /// The request data erased most recently: that of a request refused as
    /// busy, or of a request that ended.
    pub closed spec fn erased_data(self) -> Option<RequestData> {
        self.machine.erased_data()
    }

    /// The data in the slot and the data erased last are as in `before`.
    pub open spec fn keeps_data(self, before: Self) -> bool {
        self.active_data() == before.active_data() && self.erased_data() == before.erased_data()
    }

    /// The slot holds no data, and the data erased last is erased.
    pub open spec fn erased_active(self) -> bool {
        &&& self.active_data() is None
        &&& self.erased_data() matches Some(d) && d.cleared()
    }

    /// Takes `request` into the idle slot with a review that reports the
    /// missing renderer, or answers `BUSY` for it and changes nothing.
    pub fn accept(&mut self, request: IpcRequest) -> (r: Result<(), Box<TerminalResponse>>)
        requires
            old(self)@.wf(),
        ensures
            final(self)@.wf(),
            r is Ok <==> old(self)@.ui is None,
            r is Ok ==> final(self)@ == old(self)@.accepted(request),
            r is Ok ==> (final(self)@.review() matches Some(rv) && rv.display.request_id
                == request.request_id@ && rv.display.website_origin == request.website_origin@
                && rv.display.document_name == request.document_name@
                && rv.display.document_size_bytes == request.preview_pdf@.len() as u64),
            r is Ok ==> final(self).active_data() == Some(RequestData(request))
                && final(self).erased_data() == old(self).erased_data(),
            r is Err ==> final(self).active_data() == old(self).active_data(),
            r is Err ==> (final(self).erased_data() matches Some(d) && d.cleared()),
            r matches Err(response) ==> final(self)@ == old(self)@ && is_error_for(
                *response,
                Some(request.request_id@),
                ErrorCode::Busy,
                busy_message(),
            ),
    {
            let mut review = ReviewData::preparing(&request);
        review.fail_pending_configuration();
        let request_id = request.request_id.clone();
        let machine_id = request.request_id.clone();
        match self.machine.accept(machine_id, RequestData(request), Elapsed::zero()) {
            Ok(token) => {
                self.active_ui = Some(ActiveUiRequest { token, request_id, review: Some(review) });
                Ok(())
            },
            Err(busy) => {
                review.wipe();
                let Busy { response } = *busy;
                Err(Box::new(response))
            },
        }
    }

    /// A copy of what the review window shows, while the request has a
    /// review.
    pub fn review(&self) -> (r: Option<PdfReview>)
        ensures
            r is Some <==> (self@.ui matches Some(u) && u.review is Some),
            r matches Some(p) ==> p@ == self@.review()->0.display,
    {
        match &self.active_ui {
            Some(active) => match &active.review {
                Some(review) => Some(copy_review(&review.display)),
                None => None,
            },
            None => None,
        }
    }

    /// The PNG bytes of page `page_number` of the shown request's review,
    /// once it is ready.
    pub fn render_page(&self, request_id: &str, page_number: u32) -> (r: Result<
        Vec<u8>,
        &'static str,
    >)
        ensures
            render_verdict(
                self@,
                request_id@,
                page_number,
                match r {
                    Ok(png) => Ok(png@),
                    Err(m) => Err(m@),
                },
            ),
    {
        let active = match &self.active_ui {
            Some(active) => active,
            None => return Err("request is no longer active"),
        };
        if !str_eq(active.request_id.as_str(), request_id) {
            return Err("request is no longer active");
        }
        let review = match &active.review {
            Some(review) => review,
            None => return Err("PDF review is no longer active"),
        };
        if review.display.status != PdfReviewStatus::Ready {
            return Err("PDF review is not ready");
        }
        let pages = &review.rendered_pages;
        let ghost rendered = review@.rendered;
        let mut i: usize = 0;
        while i < pages.len()
            invariant
                self@.shows(request_id@),
                self@.review_ready(),
                rendered == self@.review()->0.rendered,
                rendered == pages@.map_values(|p: ReviewPage| page_view(p)),
                i <= pages.len(),
                forall|j: int| 0 <= j < i ==> (#[trigger] rendered[j]).0.page_number != page_number,
            decreases pages.len() - i,
        {
            if pages[i].metadata.page_number == page_number {
                let png = pages[i].png.clone();
                assert(png@ =~= rendered[i as int].1);
                assert(first_page_at(rendered, page_number, i as int));
                return Ok(png);
            }
            i = i + 1;
        }
        Err("PDF review page is unavailable")
    }

    /// Moves the shown request on to certificate discovery once its review
    /// is ready, and lets the review go.
    pub fn continue_signing(&mut self, request_id: &str) -> (r: Result<(), &'static str>)
        requires
            old(self)@.wf(),
        ensures
            final(self)@.wf(),
            !old(self)@.shows(request_id@) ==> text_result(r) == Err::<(), Seq<char>>(
                not_active_message(),
            ),
            old(self)@.shows(request_id@) && !old(self)@.review_ready() ==> text_result(r)
                == Err::<(), Seq<char>>(not_ready_message()),
            old(self)@.shows(request_id@) && old(self)@.review_ready() && !(old(
                self,
            )@.machine.state() is Reviewing) ==> text_result(r) == Err::<(), Seq<char>>(
                transition_failed_message(),
            ),
            r is Ok <==> old(self)@.shows(request_id@) && old(self)@.review_ready() && old(
                self,
            )@.machine.state() is Reviewing,
            r is Ok ==> final(self)@ == (SessionView {
                machine: old(self)@.machine.moved_to(RequestState::DiscoveringCertificates),
                ui: Some(UiView { review: None, ..old(self)@.ui->0 }),
            }),
            r is Err ==> final(self)@ == old(self)@,
            final(self).keeps_data(*old(self)),
    {
        let token = match &self.active_ui {
            Some(active) => {
                if !str_eq(active.request_id.as_str(), request_id) {
                    return Err("request is no longer active");
                }
                let ready = match &active.review {
                    Some(review) => review.display.status == PdfReviewStatus::Ready,
                    None => false,
                };
                if !ready {
                    return Err("PDF review is not ready");
                }
                active.token
            },
            None => return Err("request is no longer active"),
        };
        match self.machine.transition(token, RequestState::DiscoveringCertificates) {
            Ok(()) => {},
            Err(_) => return Err("request transition failed"),
        }
        let active = self.active_ui.take();
        match active {
            Some(active) => {
                let ActiveUiRequest { token, request_id, review } = active;
                match review {
                    Some(review) => review.wipe(),
                    None => {},
                }
                self.active_ui = Some(ActiveUiRequest { token, request_id, review: None });
            },
            None => {},
        }
        Ok(())
    }

    /// Cancels the shown request for `reason`, before signing has begun.
    pub fn cancel(&mut self, request_id: &str, reason: CancellationReason) -> (r: Result<
        SignCancelled,
        &'static str,
    >)
        requires
            old(self)@.wf(),
        ensures
            final(self)@.wf(),
            finish_verdict(
                old(self)@,
                request_id@,
                Finish::Cancel(reason),
                match r {
                    Ok(c) => Ok(TerminalResponse::Cancelled(c)),
                    Err(m) => Err(m@),
                },
            ),
            r is Ok ==> final(self)@ == old(self)@.finished(),
            r is Err ==> final(self)@ == old(self)@,
            r is Ok ==> final(self).erased_active(),
            r is Err ==> final(self).keeps_data(*old(self)),
    {
        match self.finish(request_id, Finish::Cancel(reason)) {
            Ok(TerminalResponse::Cancelled(cancelled)) => Ok(cancelled),
            Ok(_) => Err("request cancellation failed"),
            Err(message) => Err(message),
        }
    }

    /// Ends the shown request at the fifteen-minute deadline unless it is
    /// already signing.
    pub fn timeout(&mut self, request_id: &str) -> (r: Result<TerminalResponse, &'static str>)
        requires
            old(self)@.wf(),
        ensures
            final(self)@.wf(),
            finish_verdict(old(self)@, request_id@, Finish::Timeout, text_result(r)),
            r is Ok ==> final(self)@ == old(self)@.finished(),
            r is Err ==> final(self)@ == old(self)@,
            r is Ok ==> final(self).erased_active(),
            r is Err ==> final(self).keeps_data(*old(self)),
    {
        self.finish(request_id, Finish::Timeout)
    }

    /// Ends the shown request because the browser extension went away,
    /// unless it is already signing.
    pub fn disconnect(&mut self, request_id: &str) -> (r: Result<TerminalResponse, &'static str>)
        requires
            old(self)@.wf(),
        ensures
            final(self)@.wf(),
            finish_verdict(old(self)@, request_id@, Finish::Disconnect, text_result(r)),
            r is Ok ==> final(self)@ == old(self)@.finished(),
            r is Err ==> final(self)@ == old(self)@,
            r is Ok ==> final(self).erased_active(),
            r is Err ==> final(self).keeps_data(*old(self)),
    {
        self.finish(request_id, Finish::Disconnect)
    }

    /// The review window was closed: cancels whatever request it showed.
    pub fn close_active_window(&mut self) -> (r: Option<SignCancelled>)
        requires
            old(self)@.wf(),
        ensures
            final(self)@.wf(),
            r is Some <==> old(self)@.ui is Some && !signing_started(old(self)@.machine.state()),
            r matches Some(c) ==> is_cancellation_for(
                TerminalResponse::Cancelled(c),
                old(self)@.ui->0.request_id,
                CancellationReason::WindowClosed,
            ) && final(self)@ == old(self)@.finished(),
            r is None ==> final(self)@ == old(self)@,
            r is Some ==> final(self).erased_active(),
            r is None ==> final(self).keeps_data(*old(self)),
    {
        let request_id = match &self.active_ui {
            Some(active) => active.request_id.clone(),
            None => return None,
        };
        match self.cancel(request_id.as_str(), CancellationReason::WindowClosed) {
            Ok(cancelled) => Some(cancelled),
            Err(_) => None,
        }
    }

    /// Installs the pages a renderer produced for the shown request and marks
    /// its review ready.
    pub fn install_ready_pages(
        &mut self,
        request_id: &str,
        pages: Vec<(PdfPageMetadata, Vec<u8>)>,
    ) -> (r: Result<(), &'static str>)
        requires
            old(self)@.wf(),
        ensures
            final(self)@.wf(),
            !old(self)@.shows(request_id@) ==> text_result(r) == Err::<(), Seq<char>>(
                not_active_message(),
            ),
            old(self)@.shows(request_id@) && old(self)@.review() is None ==> text_result(r)
                == Err::<(), Seq<char>>(review_gone_message()),
            r is Ok <==> old(self)@.shows(request_id@) && old(self)@.review() is Some,
            r is Ok ==> final(self)@ == old(self)@.with_review(
                ready_review(
                    old(self)@.review()->0,
                    pages@.map_values(|p: (PdfPageMetadata, Vec<u8>)| (p.0, p.1@)),
                ),
            ),
            r is Err ==> final(self)@ == old(self)@,
            final(self).keeps_data(*old(self)),
    {
        let matches = match &self.active_ui {
            Some(active) => {
                if !str_eq(active.request_id.as_str(), request_id) {
                    return Err("request is no longer active");
                }
                active.review.is_some()
            },
            None => return Err("request is no longer active"),
        };
        if !matches {
            return Err("PDF review is no longer active");
        }
        let ghost incoming = pages@.map_values(|p: (PdfPageMetadata, Vec<u8>)| (p.0, p.1@));
        let mut listed: Vec<PdfPageMetadata> = Vec::new();
        let mut rendered: Vec<ReviewPage> = Vec::new();
        for entry in it: pages.into_iter()
            invariant
                incoming == it.seq().map_values(|p: (PdfPageMetadata, Vec<u8>)| (p.0, p.1@)),
                listed@.len() == it.index(),
                rendered@.len() == it.index(),
                forall|j: int| 0 <= j < it.index() ==> #[trigger] listed@[j] == incoming[j].0,
                forall|j: int| 0 <= j < it.index() ==> page_view(#[trigger] rendered@[j]) == incoming[j],
        {
            let (metadata, png) = entry;
            listed.push(metadata);
            rendered.push(ReviewPage { metadata, png });
        }
        let active = self.active_ui.take();
        match active {
            Some(active) => {
                let ActiveUiRequest { token, request_id, review } = active;
                match review {
                    Some(review) => {
                        let ReviewData { display, rendered_pages } = review;
                        let mut display = display;
                        display.status = PdfReviewStatus::Ready;
                        display.status_message = None;
                        display.pages = listed;
                        let ready = ReviewData { display, rendered_pages: rendered };
                        proof {
                            assert(ready@.rendered =~= incoming);
                            assert(ready@.display.pages =~= incoming.map_values(
                                |p: (PdfPageMetadata, Seq<u8>)| p.0,
                            ));
                        }
                        self.active_ui = Some(ActiveUiRequest { token, request_id, review: Some(ready) });
                    },
                    None => {
                        self.active_ui = Some(ActiveUiRequest { token, request_id, review: None });
                    },
                }
            },
            None => {},
        }
        Ok(())
    }

    /// Ends the shown request by `how`, releasing both slots; the response
    /// is the caller's to deliver.
    fn finish(&mut self, request_id: &str, how: Finish) -> (r: Result<TerminalResponse, &'static str>)
        requires
            old(self)@.wf(),
        ensures
            final(self)@.wf(),
            finish_verdict(old(self)@, request_id@, how, text_result(r)),
            r is Ok ==> final(self)@ == old(self)@.finished(),
            r is Err ==> final(self)@ == old(self)@,
            r is Ok ==> final(self).erased_active(),
            r is Err ==> final(self).keeps_data(*old(self)),
    {
        let token = match &self.active_ui {
            Some(active) => {
                if !str_eq(active.request_id.as_str(), request_id) {
                    return Err("request is no longer active");
                }
                active.token
            },
            None => return Err("request is no longer active"),
        };
        let outcome = match how {
            Finish::Cancel(reason) => match self.machine.cancel(token, reason) {
                Ok(response) => Ok(Some(response)),
                Err(e) => Err(e),
            },
            Finish::Timeout => self.machine.poll_timeout(token, request_timeout()),
            Finish::Disconnect => self.machine.extension_disconnected(token),
        };
        let response = match outcome {
            Ok(Some(response)) => response,
            Ok(None) => return Err("request cannot terminate in its current state"),
            Err(_) => return Err("request transition failed"),
        };
        let active = self.active_ui.take();
        match active {
            Some(active) => {
                let ActiveUiRequest { token: _, request_id, review } = active;
                let mut request_id = request_id;
                wipe_string(&mut request_id);
                match review {
                    Some(review) => review.wipe(),
                    None => {},
                }
            },
            None => {},
        }
        Ok(response)
    }

    /// Lets the session go, wiping the shown request and its review.
    pub fn discard(&mut self)
        requires
            old(self)@.wf(),
        ensures
            final(self)@.wf(),
            final(self)@ == old(self)@.finished(),
            old(self).active_data() is Some ==> final(self).erased_active(),
            old(self).active_data() is None ==> final(self).keeps_data(*old(self)),
    {
        self.machine.discard_active();
        let active = self.active_ui.take();
        match active {
            Some(active) => {
                let ActiveUiRequest { token: _, request_id, review } = active;
                let mut request_id = request_id;
                wipe_string(&mut request_id);
                match review {
                    Some(review) => review.wipe(),
                    None => {},
                }
            },
            None => {},
        }
    }
}

/// Once the shown request has ended the session is idle: it still holds
/// together, every later command naming that request (or any other) finds
/// nothing to act on, and the slot is free for a new request.
pub proof fn law_an_ended_request_stays_ended(s: SessionView, request_id: Seq<char>)
    requires
        s.wf(),
    ensures
        s.finished().wf(),
        !s.finished().shows(request_id),
        s.finished().ui is None,
        s.finished().machine.next_token == s.machine.next_token,
{
}

/// A freshly accepted request is shown with its own identifier, website
/// origin and document name, the size of its preview PDF, and the
/// pending-configuration failure with no pages.
pub proof fn law_an_accepted_request_is_shown_as_sent(s: SessionView, request: IpcRequest)
    ensures
        s.accepted(request).shows(request.request_id@),
        s.accepted(request).review() matches Some(rv) && {
            &&& rv.display.request_id == request.request_id@
            &&& rv.display.website_origin == request.website_origin@
            &&& rv.display.document_name == request.document_name@
            &&& rv.display.document_size_bytes == request.preview_pdf@.len() as u64
            &&& rv.display.status == PdfReviewStatus::Failed
            &&& rv.display.status_message == Some(PDF_REVIEW_PENDING_MESSAGE@)
            &&& rv.display.pages.len() == 0
            &&& rv.rendered.len() == 0
        },
{
}

/// A field-by-field copy of a review display.
fn copy_review(display: &PdfReview) -> (r: PdfReview)
    ensures
        r@ == display@,
{
    let status_message = match &display.status_message {
        Some(message) => Some(message.clone()),
        None => None,
    };
    let mut pages: Vec<PdfPageMetadata> = Vec::new();
    let mut i: usize = 0;
    while i < display.pages.len()
        invariant
            i <= display.pages@.len(),
            pages@ == display.pages@.subrange(0, i as int),
        decreases display.pages.len() - i,
    {
        pages.push(display.pages[i]);
        i = i + 1;
        assert(pages@ =~= display.pages@.subrange(0, i as int));
    }
    assert(pages@ =~= display.pages@);
    PdfReview {
        request_id: display.request_id.clone(),
        website_origin: display.website_origin.clone(),
        document_name: display.document_name.clone(),
        document_size_bytes: display.document_size_bytes,
        status: display.status,
        status_message,
        pages,
    }
}

} // verus!
