//! The document session: the state machine that owns the current file
//! path, display name, content buffer and derived line numeration.
//!
//! Storage itself lives outside the library.  The caller performs the
//! actual reads and writes and hands the raw results in: `create` is
//! entered after the initial content was written, `open` takes the bytes
//! read from disk, and `close` hands back what must be flushed.  On any
//! I/O failure the caller simply does not make the transition, so a failed
//! command leaves the session `Unopened`, exactly as specified.
use vstd::prelude::*;

use crate::numeration::{generate_line_numeration, numeration_seq};
use crate::path::{get_file_name, is_clean_path, spec_clean_path, spec_file_name, to_cleaned_path};
use crate::text::{count_lines, line_count, normalize_line_endings, normalize_newlines};

verus! {

#[derive(Clone, Copy, PartialEq, Eq, Structural, Debug)]
pub enum SessionState {
    Unopened,
    Active,
    Closed,
}

/// What the caller must flush to storage when a session closes with save.
pub struct SaveRequest {
    pub path: String,
    pub content: String,
}

/// One open document's in-memory state plus its derived view data.
pub struct DocumentSession {
    pub state: SessionState,
    pub file_path: String,
    pub file_name: String,
    pub content: String,
    pub line_numeration: String,
}

impl DocumentSession {
    /// The session invariant: once a document is loaded, the numeration
    /// matches the content's line count and the path is in display form.
    pub open spec fn wf(self) -> bool {
        !(self.state is Unopened) ==> self.line_numeration@ == numeration_seq(
            line_count(self.content@),
        ) && is_clean_path(self.file_path@) && self.file_name@ == spec_file_name(self.file_path@)
    }

    /// A fresh session with no document.
    pub fn new() -> (s: Self)
        ensures
            s.state is Unopened,
            s.wf(),
    {
        DocumentSession {
            state: SessionState::Unopened,
            file_path: String::new(),
            file_name: String::new(),
            content: String::new(),
            line_numeration: String::new(),
        }
    }

    /// `Unopened -> Active` for a newly created document.  The caller has
    /// already written `initial_content` to storage at the resolved path;
    /// the session takes the content as given, cleans the path, derives
    /// the display name and recomputes the numeration.
    pub fn create(&mut self, raw_abs_path: &str, initial_content: &str)
        requires
            old(self).state is Unopened,
        ensures
            final(self).state is Active,
            final(self).file_path@ == spec_clean_path(raw_abs_path@),
            final(self).file_name@ == spec_file_name(spec_clean_path(raw_abs_path@)),
            final(self).content@ == initial_content@,
            final(self).line_numeration@ == numeration_seq(line_count(initial_content@)),
            final(self).wf(),
    {
        let cleaned = to_cleaned_path(raw_abs_path);
        let name = get_file_name(cleaned.as_str());
        let n = count_lines(initial_content);
        self.state = SessionState::Active;
        self.file_path = cleaned;
        self.file_name = name;
        self.content = String::from_str(initial_content);
        self.line_numeration = generate_line_numeration(n);
    }

    /// `Unopened -> Active` for an existing document.  `raw_content` is
    /// what storage returned; its line endings are normalized to `\n`
    /// before it becomes the session buffer.
    pub fn open(&mut self, raw_abs_path: &str, raw_content: &str)
        requires
            old(self).state is Unopened,
        ensures
            final(self).state is Active,
            final(self).file_path@ == spec_clean_path(raw_abs_path@),
            final(self).file_name@ == spec_file_name(spec_clean_path(raw_abs_path@)),
            final(self).content@ == normalize_newlines(raw_content@),
            final(self).line_numeration@ == numeration_seq(
                line_count(normalize_newlines(raw_content@)),
            ),
            final(self).wf(),
    {
        let cleaned = to_cleaned_path(raw_abs_path);
        let name = get_file_name(cleaned.as_str());
        let normalized = normalize_line_endings(raw_content);
        let n = count_lines(normalized.as_str());
        self.state = SessionState::Active;
        self.file_path = cleaned;
        self.file_name = name;
        self.content = normalized;
        self.line_numeration = generate_line_numeration(n);
    }

    /// Replaces the buffer with what the presentation sink reports after a
    /// user edit, recomputing the derived numeration.
    pub fn update_content(&mut self, new_content: String)
        requires
            old(self).state is Active,
            old(self).wf(),
        ensures
            final(self).state is Active,
            final(self).content@ == new_content@,
            final(self).line_numeration@ == numeration_seq(line_count(new_content@)),
            final(self).file_path == old(self).file_path,
            final(self).file_name == old(self).file_name,
            final(self).wf(),
    {
        let n = count_lines(new_content.as_str());
        self.content = new_content;
        self.line_numeration = generate_line_numeration(n);
    }

    /// `Active -> Closed`.  With `with_save`, hands back the path and the
    /// current content for the caller to flush with create-or-truncate
    /// semantics.  Closing an already closed session does nothing and
    /// requests no second save.
    pub fn close(&mut self, with_save: bool) -> (r: Option<SaveRequest>)
        requires
            !(old(self).state is Unopened),
            old(self).wf(),
        ensures
            final(self).state is Closed,
            final(self).file_path == old(self).file_path,
            final(self).file_name == old(self).file_name,
            final(self).content == old(self).content,
            final(self).line_numeration == old(self).line_numeration,
            final(self).wf(),
            r is Some <==> with_save && old(self).state is Active,
            r matches Some(req) ==> req.path@ == old(self).file_path@ && req.content@ == old(
                self,
            ).content@,
    {
        let was_active = match self.state {
            SessionState::Active => true,
            _ => false,
        };
        self.state = SessionState::Closed;
        if with_save && was_active {
            Some(
                SaveRequest {
                    path: self.file_path.clone(),
                    content: self.content.clone(),
                },
            )
        } else {
            None
        }
    }

    /// The event loop runs only for a session that actually holds a
    /// document.
    pub fn should_enter_event_loop(&self) -> (b: bool)
        ensures
            b == (self.state is Active),
    {
        match self.state {
            SessionState::Active => true,
            _ => false,
        }
    }
}

} // verus!
