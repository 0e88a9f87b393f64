//! Detail-fetch sub-machine: the overlay state for one on-demand deep
//! fetch. Results arrive through a mailbox drained by `poll`; a result that
//! arrives after the overlay was closed is dropped.

use vstd::prelude::*;

use crate::models::IndexDetails;

verus! {

/// What one drain of the detail mailbox found.
pub enum DetailsEvent {
    /// A delivered result: the record, or a popup-level error message.
    Ready(Result<IndexDetails, String>),
    /// Nothing delivered yet.
    Empty,
    /// The fetch task died without sending.
    Disconnected,
}


/// How one drain of the detail mailbox relates the state before and after.
pub open spec fn poll_rel(pre: DetailsState, post: DetailsState, event: DetailsEvent) -> bool {
    &&& post.show_popup == pre.show_popup
    &&& post.scroll == pre.scroll
    &&& (!pre.show_popup ==> post == pre)
    &&& (pre.show_popup ==> match event {
        DetailsEvent::Ready(Ok(d)) => {
            &&& !post.loading
            &&& post.data == Some(d)
            &&& post.error is None
        },
        DetailsEvent::Ready(Err(e)) => {
            &&& !post.loading
            &&& post.data == pre.data
            &&& post.error == Some(e)
        },
        DetailsEvent::Empty => post == pre,
        DetailsEvent::Disconnected => {
            &&& !post.loading
            &&& post.data == pre.data
            &&& post.error matches Some(m) && m@ == "Details fetch disconnected"@
        },
    })
}

/// State of the detail overlay and its single-flight fetch.
pub struct DetailsState {
    pub show_popup: bool,
    pub data: Option<IndexDetails>,
    pub loading: bool,
    pub error: Option<String>,
    pub scroll: usize,
}

impl DetailsState {
    /// A closed overlay with nothing loaded.
    pub fn new() -> (r: Self)
        ensures
            !r.show_popup,
            r.data is None,
            !r.loading,
            r.error is None,
            r.scroll == 0,
    {
        DetailsState { show_popup: false, data: None, loading: false, error: None, scroll: 0 }
    }

    /// Opens the overlay immediately in a loading state, clearing any
    /// previous record, error and scroll position. The caller then starts
    /// the background fetch.
    pub fn fetch(&mut self)
        ensures
            final (self).show_popup,
            final (self).loading,
            final (self).data is None,
            final (self).error is None,
            final (self).scroll == 0,
    {
        self.show_popup = true;
        self.loading = true;
        self.error = None;
        self.data = None;
        self.scroll = 0;
    }

    /// Closes the overlay and resets everything, whatever was in flight.
    pub fn close(&mut self)
        ensures
            !final (self).show_popup,
            final (self).data is None,
            !final (self).loading,
            final (self).error is None,
            final (self).scroll == 0,
    {
        self.show_popup = false;
        self.data = None;
        self.error = None;
        self.loading = false;
        self.scroll = 0;
    }

    /// Applies one drain of the mailbox. With the overlay closed there is
    /// no consumer, so whatever arrived is dropped; otherwise a delivered
    /// record replaces the loading state, a delivered error is shown in the
    /// overlay, and a dead task reads as a distinct error.
    pub fn poll(&mut self, event: DetailsEvent)
        ensures
            poll_rel(*old(self), *final (self), event),
    {
        if !self.show_popup {
            return;
        }
        match event {
            DetailsEvent::Ready(result) => {
                self.loading = false;
                match result {
                    Ok(details) => {
                        self.data = Some(details);
                        self.error = None;
                    },
                    Err(e) => {
                        self.error = Some(e);
                    },
                }
            },
            DetailsEvent::Empty => {},
            DetailsEvent::Disconnected => {
                self.loading = false;
                self.error = Some("Details fetch disconnected".to_owned());
            },
        }
    }

    /// One line up; stops at zero.
    pub fn scroll_up(&mut self)
        ensures
            final (self).scroll == if old(self).scroll > 0 {
                (old(self).scroll - 1) as usize
            } else {
                0usize
            },
            scroll_only_changed(*old(self), *final (self)),
    {
        self.scroll = if self.scroll > 0 {
            self.scroll - 1
        } else {
            0
        };
    }

    /// One line down; saturates at the machine limit, and is clamped
    /// against the content height only at render time.
    pub fn scroll_down(&mut self)
        ensures
            final (self).scroll == if old(self).scroll < usize::MAX {
                (old(self).scroll + 1) as usize
            } else {
                usize::MAX
            },
            scroll_only_changed(*old(self), *final (self)),
    {
        self.scroll = if self.scroll < usize::MAX {
            self.scroll + 1
        } else {
            usize::MAX
        };
    }

    /// One page up; stops at zero.
    pub fn scroll_page_up(&mut self, page_size: usize)
        ensures
            final (self).scroll == if old(self).scroll >= page_size {
                (old(self).scroll - page_size) as usize
            } else {
                0usize
            },
            scroll_only_changed(*old(self), *final (self)),
    {
        self.scroll = if self.scroll >= page_size {
            self.scroll - page_size
        } else {
            0
        };
    }

    /// One page down; saturates at the machine limit.
    pub fn scroll_page_down(&mut self, page_size: usize)
        ensures
            final (self).scroll == if old(self).scroll as int + page_size as int <= usize::MAX
                as int {
                (old(self).scroll + page_size) as usize
            } else {
                usize::MAX
            },
            scroll_only_changed(*old(self), *final (self)),
    {
        if self.scroll <= usize::MAX - page_size {
            self.scroll = self.scroll + page_size;
        } else {
            self.scroll = usize::MAX;
        }
    }
}

/// The two states agree on everything except the scroll offset.
pub open spec fn scroll_only_changed(a: DetailsState, b: DetailsState) -> bool {
    &&& a.show_popup == b.show_popup
    &&& a.data == b.data
    &&& a.loading == b.loading
    &&& a.error == b.error
}

} // verus!
