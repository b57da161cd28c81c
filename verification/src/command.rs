//! The three command lines of the tool, as text and as arguments.
//!
//! A command line is assembled from a head and from segments, one for each
//! flag that applies, and is then normalised and split at spaces. The spec
//! functions here say which head and which segments each operation has.
use vstd::prelude::*;
use vstd::string::StringExecFns;
use crate::line::{
    command_line, joined, lemma_joined_concat, lemma_segments_text_concat, segment_text,
    segments_text,
};
use crate::outside::pair_texts;
use crate::text::{decimal, decimal_text, texts};

verus! {

broadcast use vstd::string::group_string_axioms;

/// What an executor is configured with.
pub struct ExecutorConfig {
    /// Name or path of the tool's executable.
    pub helm_path: Seq<char>,
    /// Path of the cluster configuration file, if one is passed on.
    pub kubeconfig_path: Option<Seq<char>>,
    /// Seconds that the tool may take.
    pub timeout: u16,
    /// Whether the tool is asked for verbose output.
    pub debug: bool,
    /// Whether sensitive values may be written to the log.
    pub unsafe_mode: bool,
}

/// What an install or upgrade is asked with, every text by its characters.
pub struct DeploymentRequest {
    pub namespace: Seq<char>,
    pub release_name: Seq<char>,
    pub chart_name: Seq<char>,
    pub chart_version: Option<Seq<char>>,
    /// Key and value of each override, in the order in which they are written.
    pub values_overrides: Option<Seq<(Seq<char>, Seq<char>)>>,
    /// The values file, in the form in which its path is displayed.
    pub values_file: Option<Seq<char>>,
    pub helm_options: Option<Seq<Seq<char>>>,
}

/// The segment of a flag that takes a value: present when the value is.
pub open spec fn flag_segments(flag: Seq<char>, value: Option<Seq<char>>) -> Seq<Seq<Seq<char>>> {
    match value {
        Some(v) => seq![seq![flag, v]],
        None => Seq::empty(),
    }
}

/// The segment of a flag without a value: present when it is switched on.
pub open spec fn switch_segments(flag: Seq<char>, on: bool) -> Seq<Seq<Seq<char>>> {
    if on {
        seq![seq![flag]]
    } else {
        Seq::empty()
    }
}

/// What is written for one override: key, `=`, value, unchanged.
pub open spec fn assignment(pair: (Seq<char>, Seq<char>)) -> Seq<char> {
    pair.0 + seq!['='] + pair.1
}

/// One `--set` segment for each override, in the given order.
pub open spec fn override_segments(pairs: Seq<(Seq<char>, Seq<char>)>) -> Seq<Seq<Seq<char>>> {
    Seq::new(pairs.len(), |i: int| seq!["--set"@, assignment(pairs[i])])
}

/// One segment for each further option, in the given order.
pub open spec fn option_segments(options: Seq<Seq<char>>) -> Seq<Seq<Seq<char>>> {
    Seq::new(options.len(), |i: int| seq![options[i]])
}

/// The `--set` segments of a request: none where it has no overrides.
pub open spec fn requested_override_segments(
    pairs: Option<Seq<(Seq<char>, Seq<char>)>>,
) -> Seq<Seq<Seq<char>>> {
    match pairs {
        Some(p) => override_segments(p),
        None => Seq::empty(),
    }
}

/// The segments of a request's further options: none where it has none.
pub open spec fn requested_option_segments(options: Option<Seq<Seq<char>>>) -> Seq<
    Seq<Seq<char>>,
> {
    match options {
        Some(o) => option_segments(o),
        None => Seq::empty(),
    }
}

/// The timeout as the tool reads it: seconds in decimal, then `s`.
pub open spec fn seconds(timeout: u16) -> Seq<char> {
    decimal(timeout as nat).push('s')
}

/// Head of the command line that lists releases.
pub open spec fn list_head() -> Seq<Seq<char>> {
    seq!["ls"@]
}

/// The segment that narrows a listing to a namespace and asks for JSON
/// output: present when a namespace is given.
pub open spec fn namespace_segments(namespace: Option<Seq<char>>) -> Seq<Seq<Seq<char>>> {
    match namespace {
        Some(ns) => seq![seq!["-n"@, ns, "-o"@, "json"@]],
        None => Seq::empty(),
    }
}

/// Segments of the command line that lists releases: the configuration
/// file, then the namespace together with the request for JSON output, then
/// the debug switch.
pub open spec fn list_segments(config: ExecutorConfig, namespace: Option<Seq<char>>) -> Seq<
    Seq<Seq<char>>,
> {
    flag_segments("--kubeconfig"@, config.kubeconfig_path) + namespace_segments(namespace)
        + switch_segments("--debug"@, config.debug)
}

/// The command line that lists releases, as assembled.
pub open spec fn list_command_line(config: ExecutorConfig, namespace: Option<Seq<char>>) -> Seq<
    char,
> {
    command_line(list_head(), list_segments(config, namespace))
}

/// Head of the command line that installs or upgrades a release.
pub open spec fn install_head(request: DeploymentRequest) -> Seq<Seq<char>> {
    seq![
        "upgrade"@,
        "--install"@,
        "-n"@,
        request.namespace,
        request.release_name,
        request.chart_name,
    ]
}

/// The segment that closes an install or upgrade: JSON output and timeout.
pub open spec fn install_closing(config: ExecutorConfig) -> Seq<Seq<char>> {
    seq!["-o"@, "json"@, "--timeout"@, seconds(config.timeout)]
}

/// Segments of the command line that installs or upgrades a release, in
/// their fixed order.
pub open spec fn install_segments(config: ExecutorConfig, request: DeploymentRequest) -> Seq<
    Seq<Seq<char>>,
> {
    flag_segments("--kubeconfig"@, config.kubeconfig_path) + flag_segments(
        "--version"@,
        request.chart_version,
    ) + flag_segments("-f"@, request.values_file) + requested_override_segments(
        request.values_overrides,
    ) + requested_option_segments(request.helm_options) + switch_segments(
        "--debug"@,
        config.debug,
    ) + seq![install_closing(config)]
}

/// The command line that installs or upgrades a release, as assembled.
pub open spec fn install_command_line(config: ExecutorConfig, request: DeploymentRequest) -> Seq<
    char,
> {
    command_line(install_head(request), install_segments(config, request))
}

/// Head of the command line that uninstalls a release. The timeout is
/// written in one word, joined to its flag by `=`.
pub open spec fn uninstall_head(
    config: ExecutorConfig,
    namespace: Seq<char>,
    release_name: Seq<char>,
) -> Seq<Seq<char>> {
    seq!["uninstall"@, "-n"@, namespace, release_name, "--timeout="@ + seconds(config.timeout)]
}

/// Segments of the command line that uninstalls a release.
pub open spec fn uninstall_segments(config: ExecutorConfig) -> Seq<Seq<Seq<char>>> {
    flag_segments("--kubeconfig"@, config.kubeconfig_path) + switch_segments(
        "--debug"@,
        config.debug,
    )
}

/// The command line that uninstalls a release, as assembled.
pub open spec fn uninstall_command_line(
    config: ExecutorConfig,
    namespace: Seq<char>,
    release_name: Seq<char>,
) -> Seq<char> {
    command_line(uninstall_head(config, namespace, release_name), uninstall_segments(config))
}

/// Joining all but the last of a list, then the last.
proof fn lemma_joined_take_next(words: Seq<Seq<char>>, i: int)
    requires
        0 < i < words.len(),
    ensures
        joined(words.take(i + 1)) == joined(words.take(i)) + seq![' '] + words[i],
{
    assert(words.take(i + 1) == words.take(i) + seq![words[i]]);
    lemma_joined_concat(words.take(i), seq![words[i]]);
}

/// Appends `words`, with one space between neighbours, to `line`.
pub(crate) fn push_joined(line: &mut String, words: &Vec<String>)
    requires
        words.len() > 0,
    ensures
        final(line)@ == old(line)@ + joined(texts(words@)),
{
    let ghost before = line@;
    let ghost all = texts(words@);
    line.append(words[0].as_str());
    assert(all.take(1) == seq![all[0]]);
    let mut i: usize = 1;
    while i < words.len()
        invariant
            0 < i <= words.len(),
            all == texts(words@),
            line@ == before + joined(all.take(i as int)),
        decreases words.len() - i,
    {
        line.push(' ');
        line.append(words[i].as_str());
        proof {
            lemma_joined_take_next(all, i as int);
        }
        i += 1;
    }
    assert(all.take(words.len() as int) == all);
}

/// Appends one segment to `line`: a space, `tokens` joined, a space.
pub(crate) fn push_segment(line: &mut String, tokens: &Vec<String>)
    requires
        tokens.len() > 0,
    ensures
        final(line)@ == old(line)@ + segment_text(texts(tokens@)),
{
    line.push(' ');
    push_joined(line, tokens);
    line.push(' ');
}

/// The characters of an optional string slice.
pub open spec fn optional_text(value: Option<&str>) -> Option<Seq<char>> {
    match value {
        Some(v) => Some(v@),
        None => None,
    }
}

/// The text of a single segment.
pub proof fn lemma_single_segment_text(tokens: Seq<Seq<char>>)
    ensures
        segments_text(seq![tokens]) == segment_text(tokens),
{
    let one = seq![tokens];
    assert(segments_text(one.skip(1)) == Seq::<char>::empty());
    assert(segment_text(tokens) + Seq::<char>::empty() == segment_text(tokens));
}

/// Appends the segment of `flag` and its value, if there is a value.
pub(crate) fn push_flag(line: &mut String, flag: &str, value: Option<&str>)
    ensures
        final(line)@ == old(line)@ + segments_text(flag_segments(flag@, optional_text(value))),
{
    match value {
        Some(v) => {
            let tokens = vec![flag.to_owned(), v.to_owned()];
            proof {
                assert(texts(tokens@) == seq![flag@, v@]);
                lemma_single_segment_text(seq![flag@, v@]);
            }
            push_segment(line, &tokens);
        },
        None => {
            assert(segments_text(Seq::<Seq<Seq<char>>>::empty()) == Seq::<char>::empty());
            assert(line@ + Seq::<char>::empty() == line@);
        },
    }
}

/// Appends the segment of `flag`, if it is switched on.
pub(crate) fn push_switch(line: &mut String, flag: &str, on: bool)
    ensures
        final(line)@ == old(line)@ + segments_text(switch_segments(flag@, on)),
{
    if on {
        let tokens = vec![flag.to_owned()];
        proof {
            assert(texts(tokens@) == seq![flag@]);
            lemma_single_segment_text(seq![flag@]);
        }
        push_segment(line, &tokens);
    } else {
        assert(segments_text(Seq::<Seq<Seq<char>>>::empty()) == Seq::<char>::empty());
        assert(line@ + Seq::<char>::empty() == line@);
    }
}

/// Appends one `--set` segment for each of `pairs`.
fn push_override_list(line: &mut String, pairs: &Vec<(String, String)>)
    ensures
        final(line)@ == old(line)@ + segments_text(override_segments(pair_texts(pairs@))),
{
    let ghost before = line@;
    let ghost all = pair_texts(pairs@);
    let mut i: usize = 0;
    assert(override_segments(all.take(0)) == Seq::<Seq<Seq<char>>>::empty());
    assert(line@ + Seq::<char>::empty() == line@);
    while i < pairs.len()
        invariant
            i <= pairs.len(),
            all == pair_texts(pairs@),
            line@ == before + segments_text(override_segments(all.take(i as int))),
        decreases pairs.len() - i,
    {
        let mut word = pairs[i].0.clone();
        word.push('=');
        word.append(pairs[i].1.as_str());
        let tokens = vec!["--set".to_owned(), word];
        proof {
            let segment = seq!["--set"@, assignment(all[i as int])];
            assert(all[i as int] == (pairs@[i as int].0@, pairs@[i as int].1@));
            assert(pairs@[i as int].0@.push('=') == pairs@[i as int].0@ + seq!['=']);
            assert(tokens@[1]@ == assignment(all[i as int]));
            assert(texts(tokens@) == segment);
            lemma_single_segment_text(segment);
            let done = override_segments(all.take(i as int));
            assert(override_segments(all.take(i + 1)) == done + seq![segment]);
            lemma_segments_text_concat(done, seq![segment]);
        }
        push_segment(line, &tokens);
        i += 1;
    }
    assert(all.take(pairs.len() as int) == all);
}

/// Appends one segment for each of `options`.
fn push_option_list(line: &mut String, options: &Vec<String>)
    ensures
        final(line)@ == old(line)@ + segments_text(option_segments(texts(options@))),
{
    let ghost before = line@;
    let ghost all = texts(options@);
    let mut i: usize = 0;
    assert(option_segments(all.take(0)) == Seq::<Seq<Seq<char>>>::empty());
    assert(line@ + Seq::<char>::empty() == line@);
    while i < options.len()
        invariant
            i <= options.len(),
            all == texts(options@),
            line@ == before + segments_text(option_segments(all.take(i as int))),
        decreases options.len() - i,
    {
        let tokens = vec![options[i].clone()];
        proof {
            let segment = seq![all[i as int]];
            assert(texts(tokens@) == segment);
            lemma_single_segment_text(segment);
            let done = option_segments(all.take(i as int));
            assert(option_segments(all.take(i + 1)) == done + seq![segment]);
            lemma_segments_text_concat(done, seq![segment]);
        }
        push_segment(line, &tokens);
        i += 1;
    }
    assert(all.take(options.len() as int) == all);
}

/// The texts of an optional list of pairs.
pub open spec fn texts_of_pairs(value: Option<&Vec<(String, String)>>) -> Option<
    Seq<(Seq<char>, Seq<char>)>,
> {
    match value {
        Some(pairs) => Some(pair_texts(pairs@)),
        None => None,
    }
}

/// The texts of an optional list of strings.
pub open spec fn texts_of_options(value: Option<&Vec<String>>) -> Option<Seq<Seq<char>>> {
    match value {
        Some(options) => Some(texts(options@)),
        None => None,
    }
}

/// Appends the `--set` segments of the overrides, if there are overrides.
pub(crate) fn push_overrides(line: &mut String, overrides: Option<&Vec<(String, String)>>)
    ensures
        final(line)@ == old(line)@ + segments_text(
            requested_override_segments(texts_of_pairs(overrides)),
        ),
{
    match overrides {
        Some(pairs) => push_override_list(line, pairs),
        None => {
            assert(segments_text(Seq::<Seq<Seq<char>>>::empty()) == Seq::<char>::empty());
            assert(line@ + Seq::<char>::empty() == line@);
        },
    }
}

/// Appends the segments of the further options, if there are any.
pub(crate) fn push_options(line: &mut String, options: Option<&Vec<String>>)
    ensures
        final(line)@ == old(line)@ + segments_text(
            requested_option_segments(texts_of_options(options)),
        ),
{
    match options {
        Some(list) => push_option_list(line, list),
        None => {
            assert(segments_text(Seq::<Seq<Seq<char>>>::empty()) == Seq::<char>::empty());
            assert(line@ + Seq::<char>::empty() == line@);
        },
    }
}

/// Appends the namespace segment of a listing, if a namespace is given.
pub(crate) fn push_namespace(line: &mut String, namespace: Option<&str>)
    ensures
        final(line)@ == old(line)@ + segments_text(namespace_segments(optional_text(namespace))),
{
    match namespace {
        Some(ns) => {
            let tokens = vec!["-n".to_owned(), ns.to_owned(), "-o".to_owned(), "json".to_owned()];
            proof {
                let segment = seq!["-n"@, ns@, "-o"@, "json"@];
                assert(texts(tokens@) == segment);
                lemma_single_segment_text(segment);
            }
            push_segment(line, &tokens);
        },
        None => {
            assert(segments_text(Seq::<Seq<Seq<char>>>::empty()) == Seq::<char>::empty());
            assert(line@ + Seq::<char>::empty() == line@);
        },
    }
}

/// The command line that lists releases, piece by piece.
pub proof fn lemma_list_command_line(config: ExecutorConfig, namespace: Option<Seq<char>>)
    ensures
        list_command_line(config, namespace) == joined(list_head()) + segments_text(
            flag_segments("--kubeconfig"@, config.kubeconfig_path),
        ) + segments_text(namespace_segments(namespace)) + segments_text(
            switch_segments("--debug"@, config.debug),
        ),
{
    let a = flag_segments("--kubeconfig"@, config.kubeconfig_path);
    let b = namespace_segments(namespace);
    let c = switch_segments("--debug"@, config.debug);
    lemma_segments_text_concat(a, b);
    lemma_segments_text_concat(a + b, c);
}

/// The command line that installs or upgrades a release, piece by piece.
pub proof fn lemma_install_command_line(config: ExecutorConfig, request: DeploymentRequest)
    ensures
        install_command_line(config, request) == joined(install_head(request)) + segments_text(
            flag_segments("--kubeconfig"@, config.kubeconfig_path),
        ) + segments_text(flag_segments("--version"@, request.chart_version)) + segments_text(
            flag_segments("-f"@, request.values_file),
        ) + segments_text(requested_override_segments(request.values_overrides)) + segments_text(
            requested_option_segments(request.helm_options),
        ) + segments_text(switch_segments("--debug"@, config.debug)) + segment_text(
            install_closing(config),
        ),
{
    let a = flag_segments("--kubeconfig"@, config.kubeconfig_path);
    let b = flag_segments("--version"@, request.chart_version);
    let c = flag_segments("-f"@, request.values_file);
    let d = requested_override_segments(request.values_overrides);
    let e = requested_option_segments(request.helm_options);
    let f = switch_segments("--debug"@, config.debug);
    let g = seq![install_closing(config)];
    lemma_segments_text_concat(a, b);
    lemma_segments_text_concat(a + b, c);
    lemma_segments_text_concat(a + b + c, d);
    lemma_segments_text_concat(a + b + c + d, e);
    lemma_segments_text_concat(a + b + c + d + e, f);
    lemma_segments_text_concat(a + b + c + d + e + f, g);
    lemma_single_segment_text(install_closing(config));
}

/// The command line that uninstalls a release, piece by piece.
pub proof fn lemma_uninstall_command_line(
    config: ExecutorConfig,
    namespace: Seq<char>,
    release_name: Seq<char>,
)
    ensures
        uninstall_command_line(config, namespace, release_name) == joined(
            uninstall_head(config, namespace, release_name),
        ) + segments_text(flag_segments("--kubeconfig"@, config.kubeconfig_path)) + segments_text(
            switch_segments("--debug"@, config.debug),
        ),
{
    lemma_segments_text_concat(
        flag_segments("--kubeconfig"@, config.kubeconfig_path),
        switch_segments("--debug"@, config.debug),
    );
}

/// The timeout as the tool reads it.
pub(crate) fn seconds_text(timeout: u16) -> (text: String)
    ensures
        text@ == seconds(timeout),
{
    let mut text = decimal_text(timeout);
    text.push('s');
    text
}

} // verus!
