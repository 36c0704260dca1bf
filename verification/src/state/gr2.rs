//! State of the GR2 conversion tab, and where converted models are written.
//!
//! The conversions themselves and the file dialogs are the caller's part.
use vstd::prelude::*;
use crate::state::paths::{
    file_name_of, file_stem_of, join_path, parent_of, path_file_name, path_file_stem, path_join, path_parent,
    path_strip_prefix, strip_prefix_of,
};
use crate::text::{decimal, push_decimal, push_str, starts_with_text};

verus! {

/// Which way models are converted.
#[derive(Clone, Copy, Debug, PartialEq, Eq, Structural)]
pub enum Gr2ConversionDirection {
    Gr2ToGltf,
    GltfToGr2,
}

/// The glTF flavour written when converting from GR2.
#[derive(Clone, Copy, Debug, PartialEq, Eq, Structural)]
pub enum Gr2OutputFormat {
    Glb,
    Gltf,
}

/// The extension of a glTF flavour.
pub open spec fn format_ext(f: Gr2OutputFormat) -> Seq<char> {
    match f {
        Gr2OutputFormat::Glb => "glb"@,
        Gr2OutputFormat::Gltf => "gltf"@,
    }
}

impl Gr2OutputFormat {
    /// The file extension of this flavour.
    pub fn extension(&self) -> (s: &'static str)
        ensures
            s@ == format_ext(*self),
    {
        match self {
            Gr2OutputFormat::Glb => "glb",
            Gr2OutputFormat::Gltf => "gltf",
        }
    }
}

/// The extension of converted files.
pub open spec fn output_ext(direction: Gr2ConversionDirection, format: Gr2OutputFormat) -> Seq<char> {
    match direction {
        Gr2ConversionDirection::Gr2ToGltf => format_ext(format),
        Gr2ConversionDirection::GltfToGr2 => "gr2"@,
    }
}

/// The stem of a path, empty when it has none.
pub open spec fn stem_or_empty(path: Seq<char>) -> Seq<char> {
    match path_file_stem(path) {
        Some(s) => s,
        None => Seq::empty(),
    }
}

/// The file name of a converted model: the input's stem with the output
/// extension.
pub open spec fn output_file_name(input: Seq<char>, direction: Gr2ConversionDirection, format: Gr2OutputFormat) -> Seq<char> {
    stem_or_empty(input) + "."@ + output_ext(direction, format)
}

/// Where a single converted model is proposed: next to the input ("." when
/// it has no folder).
pub open spec fn single_output_path(input: Seq<char>, direction: Gr2ConversionDirection, format: Gr2OutputFormat) -> Seq<char> {
    path_join(
        match path_parent(input) {
            Some(p) => p,
            None => "."@,
        },
        output_file_name(input, direction, format),
    )
}

/// The output file name for an input.
fn output_name_for(input: &str, direction: Gr2ConversionDirection, format: Gr2OutputFormat) -> (s: String)
    ensures
        s@ == output_file_name(input@, direction, format),
{
    let mut s = match file_stem_of(input) {
        Some(st) => st,
        None => String::new(),
    };
    push_str(&mut s, ".");
    match direction {
        Gr2ConversionDirection::Gr2ToGltf => push_str(&mut s, format.extension()),
        Gr2ConversionDirection::GltfToGr2 => {
            push_str(&mut s, "gr2");
        },
    }
    s
}

/// The proposed path of a single converted model.
pub fn single_output(input: &str, direction: Gr2ConversionDirection, format: Gr2OutputFormat) -> (p: String)
    ensures
        p@ == single_output_path(input@, direction, format),
{
    let dir = match parent_of(input) {
        Some(d) => d,
        None => String::from_str("."),
    };
    let name = output_name_for(input, direction, format);
    join_path(dir.as_str(), name.as_str())
}

/// The title of the save dialog of a single conversion.
pub open spec fn save_title(direction: Gr2ConversionDirection) -> Seq<char> {
    match direction {
        Gr2ConversionDirection::Gr2ToGltf => "Save Converted File As"@,
        Gr2ConversionDirection::GltfToGr2 => "Save GR2 File As"@,
    }
}

/// Executable `save_title`.
pub fn save_dialog_title(direction: Gr2ConversionDirection) -> (s: &'static str)
    ensures
        s@ == save_title(direction),
{
    match direction {
        Gr2ConversionDirection::Gr2ToGltf => "Save Converted File As",
        Gr2ConversionDirection::GltfToGr2 => "Save GR2 File As",
    }
}

/// Where one model of a batch is written: with an output folder, below it
/// at the model's folder relative to the input folder (at its top when the
/// model is not below the input folder, or no input folder is known);
/// without one, next to the model.
pub open spec fn batch_output_path(
    input: Seq<char>,
    direction: Gr2ConversionDirection,
    format: Gr2OutputFormat,
    output_dir: Option<Seq<char>>,
    input_base: Option<Seq<char>>,
) -> Seq<char> {
    let name = output_file_name(input, direction, format);
    let parent = match path_parent(input) {
        Some(p) => p,
        None => "."@,
    };
    match output_dir {
        Some(out) => match input_base {
            Some(base) => match path_strip_prefix(parent, base) {
                Some(rel) => path_join(path_join(out, rel), name),
                None => path_join(out, name),
            },
            None => path_join(out, name),
        },
        None => path_join(parent, name),
    }
}

/// The view of an optional text.
pub open spec fn opt_view(s: Option<String>) -> Option<Seq<char>> {
    match s {
        Some(t) => Some(t@),
        None => None,
    }
}

/// The path one model of a batch is written to, and the folder that must
/// exist for it (when it is below an output folder that mirrors the input
/// folders).
pub fn batch_output(
    input: &str,
    direction: Gr2ConversionDirection,
    format: Gr2OutputFormat,
    output_dir: &Option<String>,
    input_base: &Option<String>,
) -> (r: (String, Option<String>))
    ensures
        r.0@ == batch_output_path(input@, direction, format, opt_view(*output_dir), opt_view(*input_base)),
{
    let name = output_name_for(input, direction, format);
    let parent = match parent_of(input) {
        Some(p) => p,
        None => String::from_str("."),
    };
    match output_dir {
        Some(out) => match input_base {
            Some(base) => match strip_prefix_of(parent.as_str(), base.as_str()) {
                Some(rel) => {
                    let sub = join_path(out.as_str(), rel.as_str());
                    let p = join_path(sub.as_str(), name.as_str());
                    (p, Some(sub))
                },
                None => (join_path(out.as_str(), name.as_str()), None),
            },
            None => (join_path(out.as_str(), name.as_str()), None),
        },
        None => (join_path(parent.as_str(), name.as_str()), None),
    }
}

/// The name of a model as the batch log shows it: its path below the input
/// folder when known, else its file name.
pub open spec fn batch_display_name(input: Seq<char>, input_base: Option<Seq<char>>) -> Seq<char> {
    let file = match path_file_name(input) {
        Some(n) => n,
        None => Seq::empty(),
    };
    match input_base {
        Some(base) => match path_strip_prefix(input, base) {
            Some(rel) => rel,
            None => file,
        },
        None => file,
    }
}

/// Executable `batch_display_name`.
pub fn batch_display(input: &str, input_base: &Option<String>) -> (s: String)
    ensures
        s@ == batch_display_name(input@, opt_view(*input_base)),
{
    let file = match file_name_of(input) {
        Some(n) => n,
        None => String::new(),
    };
    match input_base {
        Some(base) => match strip_prefix_of(input, base.as_str()) {
            Some(rel) => rel,
            None => file,
        },
        None => file,
    }
}

/// The log line of one model of a batch.
pub open spec fn batch_line(display: Seq<char>, output_path: Seq<char>, error: Option<Seq<char>>) -> Seq<char> {
    match error {
        None => "Converted "@ + display + " -> "@ + match path_file_name(output_path) {
            Some(n) => n,
            None => Seq::empty(),
        },
        Some(e) => "Failed "@ + display + ": "@ + e,
    }
}

/// Executable `batch_line`.
pub fn batch_result_line(display: &str, output_path: &str, error: &Option<String>) -> (s: String)
    ensures
        s@ == batch_line(display@, output_path@, opt_view(*error)),
{
    match error {
        None => {
            let mut s = String::from_str("Converted ");
            push_str(&mut s, display);
            push_str(&mut s, " -> ");
            match file_name_of(output_path) {
                Some(n) => push_str(&mut s, n.as_str()),
                None => {},
            }
            proof {
                reveal_strlit("Converted ");
                reveal_strlit(" -> ");
            }
            s
        },
        Some(e) => {
            let mut s = String::from_str("Failed ");
            push_str(&mut s, display);
            push_str(&mut s, ": ");
            push_str(&mut s, e.as_str());
            proof {
                reveal_strlit("Failed ");
                reveal_strlit(": ");
            }
            s
        },
    }
}

/// Everything the GR2 tab shows and edits.
pub struct Gr2State {
    pub input_file: Option<String>,
    pub output_file: Option<String>,
    pub direction: Gr2ConversionDirection,
    pub output_format: Gr2OutputFormat,
    pub batch_input_dir: Option<String>,
    pub batch_output_dir: Option<String>,
    pub batch_files: Vec<String>,
    pub is_converting: bool,
    pub results_log: Vec<String>,
    pub status_message: String,
    pub working_dir: Option<String>,
}

impl Gr2State {
    /// Nothing chosen, GR2 to GLB, empty log.
    pub fn new() -> (s: Self)
        ensures
            s.input_file is None,
            s.output_file is None,
            s.direction == Gr2ConversionDirection::Gr2ToGltf,
            s.output_format == Gr2OutputFormat::Glb,
            s.batch_input_dir is None,
            s.batch_output_dir is None,
            s.batch_files@.len() == 0,
            !s.is_converting,
            s.results_log@.len() == 0,
            s.status_message@ == Seq::<char>::empty(),
            s.working_dir is None,
    {
        Gr2State {
            input_file: None,
            output_file: None,
            direction: Gr2ConversionDirection::Gr2ToGltf,
            output_format: Gr2OutputFormat::Glb,
            batch_input_dir: None,
            batch_output_dir: None,
            batch_files: Vec::new(),
            is_converting: false,
            results_log: Vec::new(),
            status_message: String::new(),
            working_dir: None,
        }
    }

    /// Appends a line to the log.
    pub fn add_result(&mut self, message: &str)
        ensures
            final(self).results_log@.len() == old(self).results_log@.len() + 1,
            final(self).results_log@.take(old(self).results_log@.len() as int) == old(self).results_log@,
            final(self).results_log@.last()@ == message@,
    {
        self.results_log.push(String::from_str(message));
        assert(self.results_log@.take(old(self).results_log@.len() as int) =~= old(self).results_log@);
    }

    /// Appends several lines to the log, in order.
    pub fn add_results_batch(&mut self, messages: Vec<String>)
        ensures
            final(self).results_log@ == old(self).results_log@ + messages@,
    {
        let mut i: usize = 0;
        while i < messages.len()
            invariant
                i <= messages.len(),
                self.results_log@ == old(self).results_log@ + messages@.take(i as int),
            decreases messages.len() - i,
        {
            self.results_log.push(messages[i].clone());
            i += 1;
            assert(self.results_log@ =~= old(self).results_log@ + messages@.take(i as int));
        }
        assert(messages@.take(messages.len() as int) =~= messages@);
    }

    /// Empties the log.
    pub fn clear_results(&mut self)
        ensures
            final(self).results_log@.len() == 0,
            final(self).is_converting == old(self).is_converting,
            final(self).status_message == old(self).status_message,
            final(self).batch_files@ == old(self).batch_files@,
            final(self).input_file == old(self).input_file,
    {
        self.results_log = Vec::new();
    }

    /// Starts a single conversion: without an input file the status says
    /// so and nothing starts (`false`); otherwise the conversion runs with
    /// an empty log.
    pub fn begin_single(&mut self) -> (started: bool)
        ensures
            started == (old(self).input_file is Some),
            !started ==> final(self).status_message@ == "No input file selected"@ && final(self).is_converting
                == old(self).is_converting && final(self).results_log@ == old(self).results_log@,
            started ==> final(self).is_converting && final(self).results_log@.len() == 0,
            final(self).input_file == old(self).input_file,
    {
        if self.input_file.is_none() {
            self.status_message = String::from_str("No input file selected");
            return false;
        }
        self.is_converting = true;
        self.results_log = Vec::new();
        true
    }

    /// Starts a batch conversion: without files the status says so and
    /// nothing starts (`false`); otherwise the conversion runs with an empty
    /// log.
    pub fn begin_batch(&mut self) -> (started: bool)
        ensures
            started == (old(self).batch_files@.len() > 0),
            !started ==> final(self).status_message@ == "No files to convert"@ && final(self).is_converting
                == old(self).is_converting && final(self).results_log@ == old(self).results_log@,
            started ==> final(self).is_converting && final(self).results_log@.len() == 0,
            final(self).batch_files@ == old(self).batch_files@,
    {
        if self.batch_files.len() == 0 {
            self.status_message = String::from_str("No files to convert");
            return false;
        }
        self.is_converting = true;
        self.results_log = Vec::new();
        true
    }
}

/// A line of the log reports a failure when it starts with "Error" or
/// "Failed".
pub open spec fn is_failure_line(line: Seq<char>) -> bool {
    "Error"@.is_prefix_of(line) || "Failed"@.is_prefix_of(line)
}

/// Executable `is_failure_line`.
pub fn is_failure(line: &str) -> (b: bool)
    ensures
        b == is_failure_line(line@),
{
    starts_with_text(line, "Error") || starts_with_text(line, "Failed")
}

/// The failure lines of a log, in order.
pub open spec fn failure_lines(log: Seq<String>) -> Seq<String> {
    log.filter(|l: String| is_failure_line(l@))
}

/// The lines the results list shows: the failures only, or all of them.
pub fn shown_results(log: &Vec<String>, failures_only: bool) -> (shown: Vec<String>)
    ensures
        shown@ == if failures_only { failure_lines(log@) } else { log@ },
{
    if !failures_only {
        return log.clone();
    }
    let mut shown: Vec<String> = Vec::new();
    let mut i: usize = 0;
    while i < log.len()
        invariant
            i <= log.len(),
            shown@ == failure_lines(log@.take(i as int)),
        decreases log.len() - i,
    {
        let ghost before = shown@;
        proof {
            reveal(Seq::filter);
            assert(log@.take(i + 1).drop_last() =~= log@.take(i as int));
        }
        if is_failure(log[i].as_str()) {
            shown.push(log[i].clone());
        }
        i += 1;
    }
    assert(log@.take(log.len() as int) =~= log@);
    shown
}

/// The number of failure lines in a log.
pub fn failure_count(log: &Vec<String>) -> (n: usize)
    ensures
        n == failure_lines(log@).len(),
{
    let mut n: usize = 0;
    let mut i: usize = 0;
    while i < log.len()
        invariant
            i <= log.len(),
            n == failure_lines(log@.take(i as int)).len(),
            n <= i,
        decreases log.len() - i,
    {
        proof {
            reveal(Seq::filter);
            assert(log@.take(i + 1).drop_last() =~= log@.take(i as int));
        }
        if is_failure(log[i].as_str()) {
            n += 1;
        }
        i += 1;
    }
    assert(log@.take(log.len() as int) =~= log@);
    n
}

/// The text of the failures toggle: "Show All" while only failures show,
/// else "Failures" with their number in brackets when there are any.
pub open spec fn failures_toggle_text(failures_only: bool, count: nat) -> Seq<char> {
    if failures_only {
        "Show All"@
    } else if count > 0 {
        "Failures ("@ + decimal(count) + ")"@
    } else {
        "Failures"@
    }
}

/// Executable `failures_toggle_text`.
pub fn failures_toggle_label(failures_only: bool, count: usize) -> (s: String)
    ensures
        s@ == failures_toggle_text(failures_only, count as nat),
{
    if failures_only {
        String::from_str("Show All")
    } else if count > 0 {
        let mut s = String::from_str("Failures (");
        push_decimal(&mut s, count as u128);
        push_str(&mut s, ")");
        s
    } else {
        String::from_str("Failures")
    }
}

} // verus!
