//! PAK operations: the events of the PAK tab.
use vstd::prelude::*;
use crate::app::{Callback, MacPakApp};
use crate::text::push_str;

verus! {

/// The events the PAK operations tab handles.
pub open spec fn tab_callbacks() -> Set<Callback> {
    set![Callback::PakBrowseExtractSource, Callback::PakBrowseExtractDest, Callback::PakExtract, Callback::PakBrowseCreateSource, Callback::PakBrowseCreateDest, Callback::PakCreate, Callback::PakBrowseListSource, Callback::PakList]
}

/// Registers all PAK Operations tab callbacks on the application.
/// What each of these events does is the matching method of `PakPanel`.
pub fn register_callbacks(app: &mut MacPakApp)
    requires
        old(app).wf(),
    ensures
        final(app).wf(),
        final(app).tab() == old(app).tab(),
        final(app).handled() == old(app).handled().union(tab_callbacks()),
{
    app.on(Callback::PakBrowseExtractSource);
    app.on(Callback::PakBrowseExtractDest);
    app.on(Callback::PakExtract);
    app.on(Callback::PakBrowseCreateSource);
    app.on(Callback::PakBrowseCreateDest);
    app.on(Callback::PakCreate);
    app.on(Callback::PakBrowseListSource);
    app.on(Callback::PakList);
    assert(app.handled() =~= old(app).handled().union(tab_callbacks()));
}

/// The PAK panel whose events `register_callbacks` binds: the chosen files
/// and folders of each operation, whether each runs, its status and
/// progress (in percent), the listed entry names, and the error dialog's
/// message, if one is open.
pub struct PakPanel {
    pub extract_source: String,
    pub extract_dest: String,
    pub is_extracting: bool,
    pub extract_status: String,
    pub extract_progress: u32,
    pub create_source: String,
    pub create_dest: String,
    pub is_creating: bool,
    pub create_status: String,
    pub create_progress: u32,
    pub list_source: String,
    pub is_listing: bool,
    pub list_contents: Vec<String>,
    pub error_message: Option<String>,
}

/// An error message: `prefix` followed by `detail`.
fn error_text(prefix: &str, detail: &str) -> (s: String)
    ensures
        s@ == prefix@ + detail@,
{
    let mut s = String::from_str(prefix);
    push_str(&mut s, detail);
    s
}

impl PakPanel {
    /// Nothing chosen, nothing running, no error.
    pub fn new() -> (p: Self)
        ensures
            p.extract_source@.len() == 0 && p.extract_dest@.len() == 0,
            !p.is_extracting && p.extract_status@.len() == 0 && p.extract_progress == 0,
            p.create_source@.len() == 0 && p.create_dest@.len() == 0,
            !p.is_creating && p.create_status@.len() == 0 && p.create_progress == 0,
            p.list_source@.len() == 0 && !p.is_listing && p.list_contents@.len() == 0,
            p.error_message is None,
    {
        PakPanel {
            extract_source: String::new(),
            extract_dest: String::new(),
            is_extracting: false,
            extract_status: String::new(),
            extract_progress: 0,
            create_source: String::new(),
            create_dest: String::new(),
            is_creating: false,
            create_status: String::new(),
            create_progress: 0,
            list_source: String::new(),
            is_listing: false,
            list_contents: Vec::new(),
            error_message: None,
        }
    }

    /// `PakBrowseListSource` with a chosen archive: it becomes the archive
    /// to list and the old listing is cleared.
    pub fn choose_list_source(&mut self, path: &str)
        ensures
            final(self).list_source@ == path@,
            final(self).list_contents@.len() == 0,
            final(self).is_listing == old(self).is_listing,
            final(self).error_message == old(self).error_message,
    {
        self.list_source = String::from_str(path);
        self.list_contents = Vec::new();
    }

    /// `PakExtract`: extraction of the chosen archive into the chosen
    /// folder starts; returns the two paths.
    pub fn begin_extract(&mut self) -> (r: (String, String))
        ensures
            r.0 == old(self).extract_source && r.1 == old(self).extract_dest,
            final(self).is_extracting,
            final(self).extract_status@ == "Extracting..."@,
            final(self).extract_progress == 0,
            final(self).error_message == old(self).error_message,
            final(self).is_creating == old(self).is_creating && final(self).is_listing == old(self).is_listing,
    {
        self.is_extracting = true;
        self.extract_status = String::from_str("Extracting...");
        self.extract_progress = 0;
        (self.extract_source.clone(), self.extract_dest.clone())
    }

    /// How the extraction went: complete (100%, "Extraction complete!"),
    /// or the error dialog with "Extraction failed: " and the reason; it no
    /// longer runs.
    pub fn finish_extract(&mut self, result: Result<(), String>)
        ensures
            !final(self).is_extracting,
            match result {
                Ok(_) => final(self).extract_progress == 100 && final(self).extract_status@
                    == "Extraction complete!"@ && final(self).error_message == old(self).error_message,
                Err(e) => final(self).extract_progress == old(self).extract_progress && final(self).extract_status
                    == old(self).extract_status && (final(self).error_message matches Some(m) && m@
                    == "Extraction failed: "@ + e@),
            },
            final(self).is_creating == old(self).is_creating && final(self).is_listing == old(self).is_listing,
    {
        match result {
            Ok(_) => {
                self.extract_progress = 100;
                self.extract_status = String::from_str("Extraction complete!");
            },
            Err(e) => {
                proof {
                    reveal_strlit("Extraction failed: ");
                }
                self.error_message = Some(error_text("Extraction failed: ", e.as_str()));
            },
        }
        self.is_extracting = false;
    }

    /// `PakCreate`: packing the chosen folder into the chosen archive
    /// starts; returns the two paths.
    pub fn begin_create(&mut self) -> (r: (String, String))
        ensures
            r.0 == old(self).create_source && r.1 == old(self).create_dest,
            final(self).is_creating,
            final(self).create_status@ == "Creating PAK..."@,
            final(self).create_progress == 0,
            final(self).error_message == old(self).error_message,
            final(self).is_extracting == old(self).is_extracting && final(self).is_listing == old(self).is_listing,
    {
        self.is_creating = true;
        self.create_status = String::from_str("Creating PAK...");
        self.create_progress = 0;
        (self.create_source.clone(), self.create_dest.clone())
    }

    /// How packing went: done (100%, "PAK created successfully!"), or the
    /// error dialog with "PAK creation failed: " and the reason; it no
    /// longer runs.
    pub fn finish_create(&mut self, result: Result<(), String>)
        ensures
            !final(self).is_creating,
            match result {
                Ok(_) => final(self).create_progress == 100 && final(self).create_status@
                    == "PAK created successfully!"@ && final(self).error_message == old(self).error_message,
                Err(e) => final(self).create_progress == old(self).create_progress && final(self).create_status
                    == old(self).create_status && (final(self).error_message matches Some(m) && m@
                    == "PAK creation failed: "@ + e@),
            },
            final(self).is_extracting == old(self).is_extracting && final(self).is_listing == old(self).is_listing,
    {
        match result {
            Ok(_) => {
                self.create_progress = 100;
                self.create_status = String::from_str("PAK created successfully!");
            },
            Err(e) => {
                proof {
                    reveal_strlit("PAK creation failed: ");
                }
                self.error_message = Some(error_text("PAK creation failed: ", e.as_str()));
            },
        }
        self.is_creating = false;
    }

    /// `PakList`: listing the chosen archive starts; returns its path.
    pub fn begin_list(&mut self) -> (source: String)
        ensures
            source == old(self).list_source,
            final(self).is_listing,
            final(self).list_contents@ == old(self).list_contents@,
            final(self).error_message == old(self).error_message,
    {
        self.is_listing = true;
        self.list_source.clone()
    }

    /// How listing went: the entry names are shown, or the error dialog
    /// with "Failed to list PAK: " and the reason; it no longer runs.
    pub fn finish_list(&mut self, result: Result<Vec<String>, String>)
        ensures
            !final(self).is_listing,
            match result {
                Ok(files) => final(self).list_contents@ == files@ && final(self).error_message
                    == old(self).error_message,
                Err(e) => final(self).list_contents@ == old(self).list_contents@ && (final(self).error_message matches Some(m) && m@ == "Failed to list PAK: "@ + e@),
            },
            final(self).is_extracting == old(self).is_extracting && final(self).is_creating == old(self).is_creating,
    {
        match result {
            Ok(files) => {
                self.list_contents = files;
            },
            Err(e) => {
                proof {
                    reveal_strlit("Failed to list PAK: ");
                }
                self.error_message = Some(error_text("Failed to list PAK: ", e.as_str()));
            },
        }
        self.is_listing = false;
    }
}

} // verus!
