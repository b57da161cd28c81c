//! The arguments of each operation, written out, and the proof that the
//! assembled command lines come to exactly these as long as no text that a
//! caller hands in holds a space.
use vstd::prelude::*;
use crate::command::{
    assignment, flag_segments, install_closing, install_command_line, install_head,
    install_segments, list_command_line, list_head, list_segments, namespace_segments,
    option_segments, override_segments, requested_option_segments, requested_override_segments,
    seconds, switch_segments, uninstall_command_line, uninstall_head, uninstall_segments,
    DeploymentRequest, ExecutorConfig,
};
use crate::line::{
    all_words, arguments_of, entries, is_word, lemma_arguments_of_command_line,
    lemma_entries_concat, segments_of_words,
};
use crate::text::{decimal, is_whitespace};

verus! {

/// A text without a space; it may be empty.
pub open spec fn has_no_space(s: Seq<char>) -> bool {
    forall|i: int| 0 <= i < s.len() ==> s[i] != ' '
}

/// The arguments of a flag that takes a value: flag and value, or nothing.
pub open spec fn flag_arguments(flag: Seq<char>, value: Option<Seq<char>>) -> Seq<Seq<char>> {
    match value {
        Some(v) => seq![flag, v],
        None => Seq::empty(),
    }
}

/// The argument of a flag without a value: the flag, or nothing.
pub open spec fn switch_arguments(flag: Seq<char>, on: bool) -> Seq<Seq<char>> {
    if on {
        seq![flag]
    } else {
        Seq::empty()
    }
}

/// The arguments of the overrides: for the override at `i`, `--set` at
/// `2 * i` and its assignment at `2 * i + 1`.
pub open spec fn override_arguments(pairs: Seq<(Seq<char>, Seq<char>)>) -> Seq<Seq<char>> {
    Seq::new(
        2 * pairs.len(),
        |k: int|
            if k % 2 == 0 {
                "--set"@
            } else {
                assignment(pairs[k / 2])
            },
    )
}

/// The arguments of a request's overrides: none where it has no overrides.
pub open spec fn requested_override_arguments(
    pairs: Option<Seq<(Seq<char>, Seq<char>)>>,
) -> Seq<Seq<char>> {
    match pairs {
        Some(p) => override_arguments(p),
        None => Seq::empty(),
    }
}

/// The arguments of a request's further options: the options themselves.
pub open spec fn requested_option_arguments(options: Option<Seq<Seq<char>>>) -> Seq<Seq<char>> {
    match options {
        Some(o) => o,
        None => Seq::empty(),
    }
}

/// The arguments that narrow a listing to a namespace.
pub open spec fn namespace_arguments(namespace: Option<Seq<char>>) -> Seq<Seq<char>> {
    match namespace {
        Some(ns) => seq!["-n"@, ns, "-o"@, "json"@],
        None => Seq::empty(),
    }
}

/// The arguments of a listing behind its head.
pub open spec fn list_further_arguments(
    config: ExecutorConfig,
    namespace: Option<Seq<char>>,
) -> Seq<Seq<char>> {
    flag_arguments("--kubeconfig"@, config.kubeconfig_path) + namespace_arguments(namespace)
        + switch_arguments("--debug"@, config.debug)
}

/// The arguments of a listing.
pub open spec fn list_arguments(config: ExecutorConfig, namespace: Option<Seq<char>>) -> Seq<
    Seq<char>,
> {
    list_head() + list_further_arguments(config, namespace)
}

/// The arguments of an install or upgrade behind its head, in their fixed
/// order.
pub open spec fn install_further_arguments(
    config: ExecutorConfig,
    request: DeploymentRequest,
) -> Seq<Seq<char>> {
    flag_arguments("--kubeconfig"@, config.kubeconfig_path) + flag_arguments(
        "--version"@,
        request.chart_version,
    ) + flag_arguments("-f"@, request.values_file) + requested_override_arguments(
        request.values_overrides,
    ) + requested_option_arguments(request.helm_options) + switch_arguments(
        "--debug"@,
        config.debug,
    ) + install_closing(config)
}

/// The arguments of an install or upgrade.
pub open spec fn install_arguments(config: ExecutorConfig, request: DeploymentRequest) -> Seq<
    Seq<char>,
> {
    install_head(request) + install_further_arguments(config, request)
}

/// The arguments of an uninstall behind its head.
pub open spec fn uninstall_further_arguments(config: ExecutorConfig) -> Seq<Seq<char>> {
    flag_arguments("--kubeconfig"@, config.kubeconfig_path) + switch_arguments(
        "--debug"@,
        config.debug,
    )
}

/// The arguments of an uninstall.
pub open spec fn uninstall_arguments(
    config: ExecutorConfig,
    namespace: Seq<char>,
    release_name: Seq<char>,
) -> Seq<Seq<char>> {
    uninstall_head(config, namespace, release_name) + uninstall_further_arguments(config)
}

/// The configuration file, if one is configured, is a word.
pub open spec fn config_of_words(config: ExecutorConfig) -> bool {
    config.kubeconfig_path matches Some(path) ==> is_word(path)
}

/// Every text of the request is a word; the value of an override may also
/// be empty.
pub open spec fn request_of_words(request: DeploymentRequest) -> bool {
    &&& is_word(request.namespace)
    &&& is_word(request.release_name)
    &&& is_word(request.chart_name)
    &&& request.chart_version matches Some(version) ==> is_word(version)
    &&& request.values_file matches Some(file) ==> is_word(file)
    &&& request.values_overrides matches Some(pairs) ==> forall|i: int|
        0 <= i < pairs.len() ==> is_word((#[trigger] pairs[i]).0) && has_no_space(pairs[i].1)
    &&& request.helm_options matches Some(options) ==> all_words(options)
}

/// The configuration file, if one is configured, does not end with
/// whitespace. This matters where its path is the last argument: what
/// trimming takes from the end of the line would be taken from the path.
pub open spec fn config_ends_cleanly(config: ExecutorConfig) -> bool {
    config.kubeconfig_path matches Some(path) ==> path.len() > 0 && !is_whitespace(path.last())
}

/// Whether the configuration file, if there is one, is the last argument
/// of a listing.
pub open spec fn list_ends_with_config(
    config: ExecutorConfig,
    namespace: Option<Seq<char>>,
) -> bool {
    namespace is None && !config.debug
}

/// Whether the configuration file, if there is one, is the last argument
/// of an uninstall.
pub open spec fn uninstall_ends_with_config(config: ExecutorConfig) -> bool {
    !config.debug
}

/// The words that the library itself writes are words, and none of them
/// starts or ends with whitespace.
pub proof fn lemma_fixed_words()
    ensures
        is_word("ls"@),
        is_word("upgrade"@),
        is_word("uninstall"@),
        is_word("--install"@),
        is_word("-n"@),
        is_word("-o"@),
        is_word("json"@),
        is_word("--kubeconfig"@),
        is_word("--version"@),
        is_word("-f"@),
        is_word("--set"@),
        is_word("--debug"@),
        is_word("--timeout"@),
        is_word("--timeout="@),
        "ls"@[0] == 'l',
        "upgrade"@[0] == 'u',
        "uninstall"@[0] == 'u',
        "json"@.last() == 'n',
        "--debug"@.last() == 'g',
{
    reveal_strlit("ls");
    reveal_strlit("upgrade");
    reveal_strlit("uninstall");
    reveal_strlit("--install");
    reveal_strlit("-n");
    reveal_strlit("-o");
    reveal_strlit("json");
    reveal_strlit("--kubeconfig");
    reveal_strlit("--version");
    reveal_strlit("-f");
    reveal_strlit("--set");
    reveal_strlit("--debug");
    reveal_strlit("--timeout");
    reveal_strlit("--timeout=");
}

/// A decimal is made of digits: it is not empty and holds no space.
pub proof fn lemma_decimal_is_word(n: nat)
    ensures
        is_word(decimal(n)),
        '0' <= decimal(n)[0] <= '9',
    decreases n,
{
    if n >= 10 {
        lemma_decimal_is_word(n / 10);
    }
}

/// The timeout is written as a word that starts with a digit and ends
/// with `s`.
pub proof fn lemma_seconds_is_word(timeout: u16)
    ensures
        is_word(seconds(timeout)),
        '0' <= seconds(timeout)[0] <= '9',
        seconds(timeout).last() == 's',
        is_word("--timeout="@ + seconds(timeout)),
        ("--timeout="@ + seconds(timeout)).last() == 's',
{
    lemma_decimal_is_word(timeout as nat);
    lemma_fixed_words();
}

/// Two lists of segments of words make one.
pub proof fn lemma_segments_of_words_concat(a: Seq<Seq<Seq<char>>>, b: Seq<Seq<Seq<char>>>)
    requires
        segments_of_words(a),
        segments_of_words(b),
    ensures
        segments_of_words(a + b),
{
    assert forall|i: int| 0 <= i < (a + b).len() implies (#[trigger] (a + b)[i]).len() > 0
        && all_words((a + b)[i]) by {
        if i < a.len() {
            assert((a + b)[i] == a[i]);
        } else {
            assert((a + b)[i] == b[i - a.len()]);
        }
    }
}

/// The entries of a single segment are the segment.
pub proof fn lemma_entries_of_one(tokens: Seq<Seq<char>>)
    ensures
        entries(seq![tokens]) == tokens,
{
    let one = seq![tokens];
    assert(entries(one.skip(1)) == Seq::<Seq<char>>::empty());
    assert(tokens + Seq::<Seq<char>>::empty() == tokens);
}

/// The segment of a flag with a value holds the flag's arguments.
pub proof fn lemma_flag_entries(flag: Seq<char>, value: Option<Seq<char>>)
    ensures
        entries(flag_segments(flag, value)) == flag_arguments(flag, value),
        is_word(flag) && (value matches Some(v) ==> is_word(v)) ==> segments_of_words(
            flag_segments(flag, value),
        ),
{
    match value {
        Some(v) => {
            lemma_entries_of_one(seq![flag, v]);
        },
        None => {},
    }
}

/// The segment of a flag without a value holds the flag's argument.
pub proof fn lemma_switch_entries(flag: Seq<char>, on: bool)
    ensures
        entries(switch_segments(flag, on)) == switch_arguments(flag, on),
        is_word(flag) ==> segments_of_words(switch_segments(flag, on)),
{
    if on {
        lemma_entries_of_one(seq![flag]);
    }
}

/// An assignment of a value without a space to a key that is a word is a
/// word.
pub proof fn lemma_assignment_is_word(pair: (Seq<char>, Seq<char>))
    requires
        is_word(pair.0),
        has_no_space(pair.1),
    ensures
        is_word(assignment(pair)),
{
    let a = assignment(pair);
    assert forall|i: int| 0 <= i < a.len() implies a[i] != ' ' by {
        if i < pair.0.len() {
            assert(a[i] == pair.0[i]);
        } else if i == pair.0.len() {
            assert(a[i] == '=');
        } else {
            assert(a[i] == pair.1[i - pair.0.len() - 1]);
        }
    }
}

/// The segments of the overrides hold the overrides' arguments.
pub proof fn lemma_override_entries(pairs: Seq<(Seq<char>, Seq<char>)>)
    ensures
        entries(override_segments(pairs)) == override_arguments(pairs),
    decreases pairs.len(),
{
    let segments = override_segments(pairs);
    if pairs.len() > 0 {
        let rest = pairs.skip(1);
        lemma_override_entries(rest);
        assert(segments.skip(1) == override_segments(rest));
        let first = seq!["--set"@, assignment(pairs[0])];
        assert(segments[0] == first);
        assert forall|k: int| 0 <= k < 2 * pairs.len() implies (first + override_arguments(
            rest,
        ))[k] == override_arguments(pairs)[k] by {
            if k >= 2 {
                assert((k - 2) % 2 == k % 2);
                assert((k - 2) / 2 == k / 2 - 1);
                assert(rest[(k - 2) / 2] == pairs[k / 2]);
            }
        }
        assert(first + override_arguments(rest) == override_arguments(pairs));
    } else {
        assert(override_arguments(pairs) == Seq::<Seq<char>>::empty());
    }
}

/// The segments of overrides whose keys are words and whose values hold no
/// space are segments of words.
pub proof fn lemma_override_segments_of_words(pairs: Seq<(Seq<char>, Seq<char>)>)
    requires
        forall|i: int|
            0 <= i < pairs.len() ==> is_word((#[trigger] pairs[i]).0) && has_no_space(pairs[i].1),
    ensures
        segments_of_words(override_segments(pairs)),
{
    lemma_fixed_words();
    let segments = override_segments(pairs);
    assert forall|i: int| 0 <= i < segments.len() implies (#[trigger] segments[i]).len() > 0
        && all_words(segments[i]) by {
        lemma_assignment_is_word(pairs[i]);
    }
}

/// The segments of the further options hold the options.
pub proof fn lemma_option_entries(options: Seq<Seq<char>>)
    ensures
        entries(option_segments(options)) == options,
        all_words(options) ==> segments_of_words(option_segments(options)),
    decreases options.len(),
{
    let segments = option_segments(options);
    if all_words(options) {
        assert forall|i: int| 0 <= i < segments.len() implies (#[trigger] segments[i]).len() > 0
            && all_words(segments[i]) by {
            assert(is_word(options[i]));
        }
    }
    if options.len() > 0 {
        let rest = options.skip(1);
        lemma_option_entries(rest);
        assert(segments.skip(1) == option_segments(rest));
        assert(segments[0] == seq![options[0]]);
        assert(seq![options[0]] + rest == options);
    }
}

/// The segments of a request's overrides hold their arguments.
pub proof fn lemma_requested_override_entries(pairs: Option<Seq<(Seq<char>, Seq<char>)>>)
    ensures
        entries(requested_override_segments(pairs)) == requested_override_arguments(pairs),
{
    match pairs {
        Some(p) => lemma_override_entries(p),
        None => {},
    }
}

/// The segments of a request's further options hold the options.
pub proof fn lemma_requested_option_entries(options: Option<Seq<Seq<char>>>)
    ensures
        entries(requested_option_segments(options)) == requested_option_arguments(options),
{
    match options {
        Some(o) => lemma_option_entries(o),
        None => {},
    }
}

/// The segments of an install or upgrade hold its arguments behind the
/// head.
pub proof fn lemma_install_entries(config: ExecutorConfig, request: DeploymentRequest)
    ensures
        entries(install_segments(config, request)) == install_further_arguments(config, request),
{
    let a = flag_segments("--kubeconfig"@, config.kubeconfig_path);
    let b = flag_segments("--version"@, request.chart_version);
    let c = flag_segments("-f"@, request.values_file);
    let d = requested_override_segments(request.values_overrides);
    let e = requested_option_segments(request.helm_options);
    let f = switch_segments("--debug"@, config.debug);
    let g = seq![install_closing(config)];
    lemma_flag_entries("--kubeconfig"@, config.kubeconfig_path);
    lemma_flag_entries("--version"@, request.chart_version);
    lemma_flag_entries("-f"@, request.values_file);
    lemma_requested_override_entries(request.values_overrides);
    lemma_requested_option_entries(request.helm_options);
    lemma_switch_entries("--debug"@, config.debug);
    lemma_entries_of_one(install_closing(config));
    lemma_entries_concat(a, b);
    lemma_entries_concat(a + b, c);
    lemma_entries_concat(a + b + c, d);
    lemma_entries_concat(a + b + c + d, e);
    lemma_entries_concat(a + b + c + d + e, f);
    lemma_entries_concat(a + b + c + d + e + f, g);
}

/// The head and the segments of an install or upgrade are made of words
/// where the texts handed in are.
pub proof fn lemma_install_of_words(config: ExecutorConfig, request: DeploymentRequest)
    requires
        config_of_words(config),
        request_of_words(request),
    ensures
        all_words(install_head(request)),
        segments_of_words(install_segments(config, request)),
{
    lemma_fixed_words();
    lemma_seconds_is_word(config.timeout);
    let a = flag_segments("--kubeconfig"@, config.kubeconfig_path);
    let b = flag_segments("--version"@, request.chart_version);
    let c = flag_segments("-f"@, request.values_file);
    let d = requested_override_segments(request.values_overrides);
    let e = requested_option_segments(request.helm_options);
    let f = switch_segments("--debug"@, config.debug);
    let g = seq![install_closing(config)];
    assert(segments_of_words(a)) by {
        lemma_flag_entries("--kubeconfig"@, config.kubeconfig_path);
    }
    assert(segments_of_words(b)) by {
        lemma_flag_entries("--version"@, request.chart_version);
    }
    assert(segments_of_words(c)) by {
        lemma_flag_entries("-f"@, request.values_file);
    }
    assert(segments_of_words(d)) by {
        match request.values_overrides {
            Some(pairs) => lemma_override_segments_of_words(pairs),
            None => {},
        }
    }
    assert(segments_of_words(e)) by {
        match request.helm_options {
            Some(options) => lemma_option_entries(options),
            None => {},
        }
    }
    assert(segments_of_words(f)) by {
        lemma_switch_entries("--debug"@, config.debug);
    }
    assert(segments_of_words(g)) by {
        assert(all_words(install_closing(config)));
    }
    lemma_segments_of_words_concat(a, b);
    lemma_segments_of_words_concat(a + b, c);
    lemma_segments_of_words_concat(a + b + c, d);
    lemma_segments_of_words_concat(a + b + c + d, e);
    lemma_segments_of_words_concat(a + b + c + d + e, f);
    lemma_segments_of_words_concat(a + b + c + d + e + f, g);
}

/// As long as every text handed in is a word, an install or upgrade is run
/// with exactly the arguments of `install_arguments`: each text is one
/// argument, unchanged, and nothing else is added.
pub proof fn lemma_install_arguments(config: ExecutorConfig, request: DeploymentRequest)
    requires
        config_of_words(config),
        request_of_words(request),
    ensures
        arguments_of(install_command_line(config, request)) == install_arguments(config, request),
{
    lemma_install_entries(config, request);
    lemma_install_of_words(config, request);
    let head = install_head(request);
    let segments = install_segments(config, request);
    let all = head + entries(segments);
    assert(!is_whitespace(head[0][0])) by {
        lemma_fixed_words();
    }
    assert(!is_whitespace(all.last().last())) by {
        lemma_seconds_is_word(config.timeout);
        assert(all == install_arguments(config, request));
        assert(install_closing(config).len() == 4);
        assert(all.last() == install_closing(config).last());
        assert(install_closing(config).last() == seconds(config.timeout));
    }
    lemma_arguments_of_command_line(head, segments);
}

/// The segment that narrows a listing holds the arguments that do so.
pub proof fn lemma_namespace_entries(namespace: Option<Seq<char>>)
    ensures
        entries(namespace_segments(namespace)) == namespace_arguments(namespace),
        (namespace matches Some(ns) ==> is_word(ns)) ==> segments_of_words(
            namespace_segments(namespace),
        ),
{
    lemma_fixed_words();
    match namespace {
        Some(ns) => {
            lemma_entries_of_one(seq!["-n"@, ns, "-o"@, "json"@]);
        },
        None => {},
    }
}

/// The segments of a listing hold its arguments behind the head.
pub proof fn lemma_list_entries(config: ExecutorConfig, namespace: Option<Seq<char>>)
    ensures
        entries(list_segments(config, namespace)) == list_further_arguments(config, namespace),
{
    let a = flag_segments("--kubeconfig"@, config.kubeconfig_path);
    let b = namespace_segments(namespace);
    let c = switch_segments("--debug"@, config.debug);
    lemma_flag_entries("--kubeconfig"@, config.kubeconfig_path);
    lemma_namespace_entries(namespace);
    lemma_switch_entries("--debug"@, config.debug);
    lemma_entries_concat(a, b);
    lemma_entries_concat(a + b, c);
}

/// The segments of a listing are made of words where the texts handed in
/// are.
pub proof fn lemma_list_of_words(config: ExecutorConfig, namespace: Option<Seq<char>>)
    requires
        config_of_words(config),
        namespace matches Some(ns) ==> is_word(ns),
    ensures
        all_words(list_head()),
        segments_of_words(list_segments(config, namespace)),
{
    lemma_fixed_words();
    let a = flag_segments("--kubeconfig"@, config.kubeconfig_path);
    let b = namespace_segments(namespace);
    let c = switch_segments("--debug"@, config.debug);
    lemma_flag_entries("--kubeconfig"@, config.kubeconfig_path);
    lemma_namespace_entries(namespace);
    lemma_switch_entries("--debug"@, config.debug);
    lemma_segments_of_words_concat(a, b);
    lemma_segments_of_words_concat(a + b, c);
}

/// As long as the namespace and the configuration file are words, a
/// listing is run with exactly the arguments of `list_arguments`. Where the
/// configuration file is the last of them, it must not end with whitespace.
pub proof fn lemma_list_arguments(config: ExecutorConfig, namespace: Option<Seq<char>>)
    requires
        config_of_words(config),
        namespace matches Some(ns) ==> is_word(ns),
        list_ends_with_config(config, namespace) ==> config_ends_cleanly(config),
    ensures
        arguments_of(list_command_line(config, namespace)) == list_arguments(config, namespace),
{
    lemma_list_entries(config, namespace);
    lemma_list_of_words(config, namespace);
    let head = list_head();
    let segments = list_segments(config, namespace);
    let all = head + entries(segments);
    assert(!is_whitespace(head[0][0])) by {
        lemma_fixed_words();
    }
    assert(!is_whitespace(all.last().last())) by {
        lemma_fixed_words();
        assert(all == list_arguments(config, namespace));
        let kubeconfig = flag_arguments("--kubeconfig"@, config.kubeconfig_path);
        let scope = namespace_arguments(namespace);
        let debug = switch_arguments("--debug"@, config.debug);
        let further = kubeconfig + scope + debug;
        if config.debug {
            assert(all.last() == "--debug"@);
        } else if namespace is Some {
            assert(debug.len() == 0);
            assert(scope.len() == 4);
            assert(further.last() == scope[3]);
            assert(all.last() == "json"@);
        } else if config.kubeconfig_path is Some {
            assert(further.last() == kubeconfig[1]);
            assert(all.last() == config.kubeconfig_path->0);
        } else {
            assert(further.len() == 0);
            assert(all.last() == "ls"@);
            reveal_strlit("ls");
        }
    }
    lemma_arguments_of_command_line(head, segments);
}

/// The segments of an uninstall hold its arguments behind the head.
pub proof fn lemma_uninstall_entries(config: ExecutorConfig)
    ensures
        entries(uninstall_segments(config)) == uninstall_further_arguments(config),
{
    let a = flag_segments("--kubeconfig"@, config.kubeconfig_path);
    let b = switch_segments("--debug"@, config.debug);
    lemma_flag_entries("--kubeconfig"@, config.kubeconfig_path);
    lemma_switch_entries("--debug"@, config.debug);
    lemma_entries_concat(a, b);
}

/// The head and the segments of an uninstall are made of words where the
/// texts handed in are.
pub proof fn lemma_uninstall_of_words(
    config: ExecutorConfig,
    namespace: Seq<char>,
    release_name: Seq<char>,
)
    requires
        config_of_words(config),
        is_word(namespace),
        is_word(release_name),
    ensures
        all_words(uninstall_head(config, namespace, release_name)),
        segments_of_words(uninstall_segments(config)),
{
    lemma_fixed_words();
    lemma_seconds_is_word(config.timeout);
    let a = flag_segments("--kubeconfig"@, config.kubeconfig_path);
    let b = switch_segments("--debug"@, config.debug);
    lemma_flag_entries("--kubeconfig"@, config.kubeconfig_path);
    lemma_switch_entries("--debug"@, config.debug);
    lemma_segments_of_words_concat(a, b);
}

/// As long as namespace, release name and configuration file are words,
/// an uninstall is run with exactly the arguments of `uninstall_arguments`.
/// Where the configuration file is the last of them, it must not end with
/// whitespace.
pub proof fn lemma_uninstall_arguments(
    config: ExecutorConfig,
    namespace: Seq<char>,
    release_name: Seq<char>,
)
    requires
        config_of_words(config),
        is_word(namespace),
        is_word(release_name),
        uninstall_ends_with_config(config) ==> config_ends_cleanly(config),
    ensures
        arguments_of(uninstall_command_line(config, namespace, release_name))
            == uninstall_arguments(config, namespace, release_name),
{
    lemma_uninstall_entries(config);
    lemma_uninstall_of_words(config, namespace, release_name);
    let head = uninstall_head(config, namespace, release_name);
    let segments = uninstall_segments(config);
    let all = head + entries(segments);
    assert(!is_whitespace(head[0][0])) by {
        lemma_fixed_words();
    }
    assert(!is_whitespace(all.last().last())) by {
        lemma_fixed_words();
        lemma_seconds_is_word(config.timeout);
        let kubeconfig = flag_arguments("--kubeconfig"@, config.kubeconfig_path);
        let debug = switch_arguments("--debug"@, config.debug);
        let further = kubeconfig + debug;
        if config.debug {
            assert(all.last() == "--debug"@);
        } else if config.kubeconfig_path is Some {
            assert(further.last() == kubeconfig[1]);
            assert(all.last() == config.kubeconfig_path->0);
        } else {
            assert(further.len() == 0);
            assert(all.last() == head[4]);
        }
    }
    lemma_arguments_of_command_line(head, segments);
}

} // verus!
