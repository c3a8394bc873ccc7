//! Text insertion by clipboard paste: what each outcome reports.
use vstd::prelude::*;
use crate::db::database::Database;
use crate::errors::AppError;
use crate::models::InsertionResult;
use crate::text::str_of;

verus! {

/// How writing the text to the clipboard went.
pub enum ClipboardWrite {
    /// The text is on the clipboard.
    Written,
    /// The clipboard could not be opened, for this reason.
    OpenFailed(String),
    /// The clipboard refused the text, for this reason.
    WriteFailed(String),
}

/// The result `r` is (`success`, `method`, `message`).
pub open spec fn reports(r: InsertionResult, success: bool, method: Seq<char>, message: Seq<char>) -> bool {
    r.success == success && r.method@ == method && r.message@ == message
}

/// Insertion of dictated text into the focused application.
pub struct InsertionService;

impl InsertionService {
    /// Whether the clipboard's earlier text is put back after the paste.
    pub fn restore_enabled(db: &Database) -> (r: Result<bool, AppError>)
        ensures
            r == Ok::<bool, AppError>(match db.settings@ {
                Some(s) => s.clipboard_restore_enabled,
                None => false,
            }),
    {
        let settings = db.settings.get()?;
        Ok(settings.clipboard_restore_enabled)
    }

    /// The result when the text never reached the clipboard; `None` when it
    /// did and the paste is next.
    pub fn write_failure(write: &ClipboardWrite) -> (r: Option<InsertionResult>)
        ensures
            write is Written ==> r is None,
            write matches ClipboardWrite::OpenFailed(e) ==> (r matches Some(res)
                && reports(res, false, "clipboard_only"@, "Could not open clipboard: "@ + e@)),
            write matches ClipboardWrite::WriteFailed(e) ==> (r matches Some(res)
                && reports(res, false, "clipboard_only"@, "Failed to write to clipboard: "@ + e@)),
    {
        match write {
            ClipboardWrite::Written => None,
            ClipboardWrite::OpenFailed(e) => {
                let mut m = str_of("Could not open clipboard: ");
                m.append(e.as_str());
                Some(InsertionResult { success: false, method: str_of("clipboard_only"), message: m })
            },
            ClipboardWrite::WriteFailed(e) => {
                let mut m = str_of("Failed to write to clipboard: ");
                m.append(e.as_str());
                Some(InsertionResult { success: false, method: str_of("clipboard_only"), message: m })
            },
        }
    }

    /// The result once the text is on the clipboard: a pasted text, or one
    /// left there for the user to paste by hand.
    pub fn paste_result(paste_succeeded: bool) -> (r: InsertionResult)
        ensures
            paste_succeeded ==> reports(r, true, "clipboard_paste"@, "Text inserted successfully."@),
            !paste_succeeded ==> reports(r, false, "clipboard_only"@,
                "Paste simulation failed. Text is in your clipboard \u{2014} press Ctrl+V or Cmd+V to paste manually."@),
    {
        if paste_succeeded {
            InsertionResult {
                success: true,
                method: str_of("clipboard_paste"),
                message: str_of("Text inserted successfully."),
            }
        } else {
            InsertionResult {
                success: false,
                method: str_of("clipboard_only"),
                message: str_of("Paste simulation failed. Text is in your clipboard \u{2014} press Ctrl+V or Cmd+V to paste manually."),
            }
        }
    }

    /// The result of a failed insertion call, as the push-to-talk pipeline records it.
    pub fn error_result(e: &AppError) -> (r: InsertionResult)
        ensures
            reports(r, false, "clipboard_only"@, "Insertion error: "@ + e.prefix() + e.detail()),
    {
        let mut m = str_of("Insertion error: ");
        m.append(e.message().as_str());
        assert(m@ =~= "Insertion error: "@ + e.prefix() + e.detail());
        InsertionResult { success: false, method: str_of("clipboard_only"), message: m }
    }
}

} // verus!
