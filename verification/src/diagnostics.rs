//! What may be written to the log about an operation. Overrides, the
//! assembled arguments and the tool's output can hold secrets: they are
//! logged in unsafe mode only.
use vstd::prelude::*;
use vstd::string::StringExecFns;
use vstd::utf8::{decode_utf8, valid_utf8};
use crate::blocking::{borrowed, listed, lists_overrides, DefaultHelmExecutor};
use crate::command::{push_joined, texts_of_pairs, ExecutorConfig};
use crate::line::joined;
use crate::outcome::ProcessOutput;
use crate::outside::pair_texts;
use crate::text::texts;
use non_blank_string_rs::NonBlankString;
use std::collections::HashMap;

verus! {

/// The line that reports one override.
pub open spec fn override_line(pair: (Seq<char>, Seq<char>)) -> Seq<char> {
    "- value override '"@ + pair.0 + "': '"@ + pair.1 + "'"@
}

/// The lines that report the overrides of a request: one for each in
/// unsafe mode, and otherwise a single notice that says nothing of them.
pub open spec fn override_lines(
    config: ExecutorConfig,
    pairs: Option<Seq<(Seq<char>, Seq<char>)>>,
) -> Seq<Seq<char>> {
    match pairs {
        None => Seq::empty(),
        Some(p) => if config.unsafe_mode {
            Seq::new(p.len(), |i: int| override_line(p[i]))
        } else {
            seq!["overriden chart values won't be mentioned in log because of safe mode"@]
        },
    }
}

/// The lines that report the arguments: in unsafe mode one line that
/// holds them all, and otherwise none.
pub open spec fn argument_lines(config: ExecutorConfig, args: Seq<Seq<char>>) -> Seq<Seq<char>> {
    if config.unsafe_mode && args.len() > 0 {
        seq!["command args: '"@ + joined(args) + "'"@]
    } else {
        Seq::empty()
    }
}

/// The lines that report the output of a run: in unsafe mode, and where
/// the run succeeded and wrote UTF-8, the text between two markers, and
/// otherwise none.
pub open spec fn output_lines(config: ExecutorConfig, output: ProcessOutput) -> Seq<Seq<char>> {
    if config.unsafe_mode && output.success && valid_utf8(output.stdout@) {
        seq!["<stdout>"@, decode_utf8(output.stdout@), "</stdout>"@]
    } else {
        Seq::empty()
    }
}

/// The line that reports one override.
fn override_line_text(key: &str, value: &str) -> (line: String)
    ensures
        line@ == override_line((key@, value@)),
{
    let mut line = "- value override '".to_owned();
    line.append(key);
    line.append("': '");
    line.append(value);
    line.append("'");
    line
}

impl DefaultHelmExecutor {
    /// The lines to log about overrides that are written in the order of
    /// `overrides`.
    pub fn override_log_lines_from_pairs(
        &self,
        overrides: Option<&Vec<(String, String)>>,
    ) -> (lines: Vec<String>)
        ensures
            texts(lines@) == override_lines(self@, texts_of_pairs(overrides)),
    {
        let mut lines: Vec<String> = Vec::new();
        match overrides {
            None => {},
            Some(pairs) => {
                let ghost all = pair_texts(pairs@);
                if self.get_unsafe_mode() {
                    let mut i: usize = 0;
                    while i < pairs.len()
                        invariant
                            i <= pairs.len(),
                            all == pair_texts(pairs@),
                            lines@.len() == i,
                            forall|k: int| 0 <= k < i ==> lines@[k]@ == override_line(all[k]),
                        decreases pairs.len() - i,
                    {
                        let line = override_line_text(pairs[i].0.as_str(), pairs[i].1.as_str());
                        assert(all[i as int] == (pairs@[i as int].0@, pairs@[i as int].1@));
                        lines.push(line);
                        i += 1;
                    }
                } else {
                    let notice =
                        "overriden chart values won't be mentioned in log because of safe mode";
                    lines.push(notice.to_owned());
                }
            },
        }
        assert(texts(lines@) == override_lines(self@, texts_of_pairs(overrides)));
        lines
    }

    /// The lines to log about the overrides of a request, for some listing
    /// of the map.
    pub fn override_log_lines(
        &self,
        values_overrides: Option<&HashMap<NonBlankString, String>>,
    ) -> (lines: Vec<String>)
        ensures
            exists|pairs: Option<Seq<(Seq<char>, Seq<char>)>>|
                lists_overrides(pairs, values_overrides) && texts(lines@)
                    == #[trigger] override_lines(self@, pairs),
    {
        let pairs = listed(values_overrides);
        let lines = self.override_log_lines_from_pairs(pairs.as_ref());
        assert(texts(lines@) == override_lines(self@, texts_of_pairs(borrowed(&pairs))));
        lines
    }

    /// The lines to log about the arguments of a run.
    pub fn argument_log_lines(&self, args: &Vec<String>) -> (lines: Vec<String>)
        ensures
            texts(lines@) == argument_lines(self@, texts(args@)),
    {
        let mut lines: Vec<String> = Vec::new();
        if self.get_unsafe_mode() && args.len() > 0 {
            let mut line = "command args: '".to_owned();
            push_joined(&mut line, args);
            line.append("'");
            lines.push(line);
        }
        assert(texts(lines@) == argument_lines(self@, texts(args@)));
        lines
    }

    /// The lines to log about the output of a run.
    pub fn output_log_lines(&self, output: &ProcessOutput) -> (lines: Vec<String>)
        ensures
            texts(lines@) == output_lines(self@, *output),
    {
        let mut lines: Vec<String> = Vec::new();
        if self.get_unsafe_mode() && output.success {
            match String::from_utf8(output.stdout.clone()) {
                Ok(text) => {
                    lines.push("<stdout>".to_owned());
                    lines.push(text);
                    lines.push("</stdout>".to_owned());
                },
                Err(_) => {},
            }
        }
        assert(texts(lines@) == output_lines(self@, *output));
        lines
    }
}

} // verus!
