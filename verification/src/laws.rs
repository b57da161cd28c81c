//! What holds of the library as a whole: of the arguments that it builds
//! and of the answers that it reads.
use vstd::prelude::*;
use crate::arguments::{
    config_ends_cleanly, config_of_words, flag_arguments, has_no_space, install_arguments,
    lemma_fixed_words, lemma_override_entries, lemma_override_segments_of_words,
    install_further_arguments, lemma_install_arguments, lemma_install_entries,
    lemma_install_of_words, lemma_list_arguments, lemma_list_entries, lemma_list_of_words,
    lemma_seconds_is_word, lemma_uninstall_arguments, lemma_uninstall_entries,
    lemma_uninstall_of_words, list_arguments, list_ends_with_config, namespace_arguments,
    override_arguments, request_of_words, requested_option_arguments,
    requested_override_arguments, switch_arguments, uninstall_arguments,
    uninstall_ends_with_config,
};
use crate::command::{
    assignment, flag_segments, install_closing, install_command_line, install_head,
    install_segments, lemma_install_command_line, list_command_line, list_head, list_segments,
    override_segments, requested_option_segments, seconds, switch_segments,
    uninstall_command_line, uninstall_head, uninstall_segments, DeploymentRequest,
    ExecutorConfig,
};
use crate::diagnostics::{argument_lines, output_lines, override_lines};
use crate::error::HelmWrapperError;
use crate::line::{
    all_words, arguments_of, command_line, entries, is_word, joined,
    lemma_arguments_of_command_line, lemma_entries_are_words, lemma_word_segments_stay_whole,
    segment_text, segments_of_words, segments_text,
};
use crate::outside::lists_entries;
use crate::spacing::{
    has_three_spaces, lemma_collapse_leaves_single_spaces, lemma_split_of_clean_text,
    lemma_trim_is_clean,
};
use crate::text::{collapse_space_pairs, is_whitespace, normalized, split_on_space};
use crate::outcome::{
    is_install_or_upgrade_result, is_list_result, is_uninstall_result, ProcessOutput,
};
use crate::response::{
    reads_releases, reads_upgrade_response, records, status_of, token_of, HelmListItem,
    HelmUpgradeResponse, HelmUpgradeStatus,
};

verus! {

/// Each status has one word, and that word names the status back. A text
/// names a status only if it is one of the four words: `deployed`,
/// `pending-install`, `pending-upgrade` and `failed`.
pub proof fn status_words_round_trip(status: HelmUpgradeStatus, token: Seq<char>)
    ensures
        status_of(token_of(status)) == Some(status),
        status_of(token) == Some(status) <==> token == token_of(status),
        status_of(token) is Some <==> token == "deployed"@ || token == "pending-install"@ || token
            == "pending-upgrade"@ || token == "failed"@,
{
    reveal_strlit("deployed");
    reveal_strlit("pending-install");
    reveal_strlit("pending-upgrade");
    reveal_strlit("failed");
    assert("deployed"@.len() == 8);
    assert("failed"@.len() == 6);
    assert("pending-install"@.len() == 15);
    assert("pending-upgrade"@.len() == 15);
    assert("pending-install"@[8] == 'i');
    assert("pending-upgrade"@[8] == 'u');
    assert("pending-install"@ != "pending-upgrade"@);
}

/// Reading the same listing twice gives the same: both readings succeed or
/// both fail, and where they succeed they hold equal records in the same
/// order.
pub proof fn reading_releases_is_repeatable(
    text: Seq<char>,
    first: Result<Vec<HelmListItem>, serde_json::Error>,
    second: Result<Vec<HelmListItem>, serde_json::Error>,
)
    requires
        reads_releases(text, first),
        reads_releases(text, second),
    ensures
        first is Ok <==> second is Ok,
        first matches Ok(a) ==> second matches Ok(b) && records(a@) == records(b@),
{
}

/// Reading the same answer to an install or upgrade twice gives the same
/// status, or fails both times.
pub proof fn reading_upgrade_response_is_repeatable(
    text: Seq<char>,
    first: Result<HelmUpgradeResponse, serde_json::Error>,
    second: Result<HelmUpgradeResponse, serde_json::Error>,
)
    requires
        reads_upgrade_response(text, first),
        reads_upgrade_response(text, second),
    ensures
        first is Ok <==> second is Ok,
        first matches Ok(a) ==> second matches Ok(b) && a.info.status == b.info.status,
{
}

/// A run that reports failure comes to the plain execution error, whatever
/// it wrote and whatever the operation: its output is not read.
pub proof fn failed_run_is_not_read(
    output: ProcessOutput,
    listing: Result<Vec<HelmListItem>, HelmWrapperError>,
    status: Result<HelmUpgradeStatus, HelmWrapperError>,
    removal: Result<(), HelmWrapperError>,
)
    requires
        !output.success,
        is_list_result(Ok(output), listing),
        is_install_or_upgrade_result(Ok(output), status),
        is_uninstall_result(Ok(output), removal),
    ensures
        listing == Err::<Vec<HelmListItem>, _>(HelmWrapperError::Error),
        status == Err::<HelmUpgradeStatus, _>(HelmWrapperError::Error),
        removal == Err::<(), _>(HelmWrapperError::Error),
{
}

/// A text in which no three spaces stand in a row yields no empty
/// argument, whatever else it holds, unless nothing but whitespace is left
/// of it. One pass over pairs of spaces mends no longer run: of three
/// spaces in a row two are left, and between them an empty argument.
pub proof fn text_without_three_spaces_has_no_empty_argument(line: Seq<char>)
    requires
        !has_three_spaces(line),
        normalized(line).len() > 0,
    ensures
        forall|i: int|
            0 <= i < arguments_of(line).len() ==> (#[trigger] arguments_of(line)[i]).len() > 0,
{
    lemma_collapse_leaves_single_spaces(line);
    lemma_trim_is_clean(collapse_space_pairs(line));
    lemma_split_of_clean_text(normalized(line));
    assert(arguments_of(line) == split_on_space(normalized(line)));
}

/// A head followed by words is a list of words.
proof fn lemma_all_words_concat(a: Seq<Seq<char>>, b: Seq<Seq<char>>)
    requires
        all_words(a),
        all_words(b),
    ensures
        all_words(a + b),
{
    assert forall|i: int| 0 <= i < (a + b).len() implies is_word(#[trigger] (a + b)[i]) by {
        if i < a.len() {
            assert((a + b)[i] == a[i]);
        } else {
            assert((a + b)[i] == b[i - a.len()]);
        }
    }
}

/// However many segments a command line is assembled from, and whichever
/// of them were left out, none of its arguments is empty or holds a space,
/// as long as the line is made of words and neither starts nor ends with
/// whitespace.
pub proof fn assembled_line_has_no_empty_argument(
    head: Seq<Seq<char>>,
    segments: Seq<Seq<Seq<char>>>,
)
    requires
        head.len() > 0,
        all_words(head),
        segments_of_words(segments),
        !is_whitespace(head[0][0]),
        !is_whitespace((head + entries(segments)).last().last()),
    ensures
        all_words(arguments_of(command_line(head, segments))),
        forall|i: int|
            0 <= i < arguments_of(command_line(head, segments)).len() ==> (
            #[trigger] arguments_of(command_line(head, segments))[i]).len() > 0,
{
    lemma_arguments_of_command_line(head, segments);
    lemma_entries_are_words(segments);
    lemma_all_words_concat(head, entries(segments));
    let args = arguments_of(command_line(head, segments));
    assert forall|i: int| 0 <= i < args.len() implies (#[trigger] args[i]).len() > 0 by {
        assert(is_word(args[i]));
    }
}

/// The arguments of a listing are words, none of them empty, as long as
/// the texts handed in are words.
pub proof fn list_arguments_are_words(config: ExecutorConfig, namespace: Option<Seq<char>>)
    requires
        config_of_words(config),
        namespace matches Some(ns) ==> is_word(ns),
        list_ends_with_config(config, namespace) ==> config_ends_cleanly(config),
    ensures
        all_words(arguments_of(list_command_line(config, namespace))),
{
    lemma_list_arguments(config, namespace);
    lemma_list_entries(config, namespace);
    lemma_list_of_words(config, namespace);
    lemma_entries_are_words(list_segments(config, namespace));
    lemma_all_words_concat(list_head(), entries(list_segments(config, namespace)));
}

/// The arguments of an install or upgrade are words, none of them empty,
/// as long as the texts handed in are words.
pub proof fn install_arguments_are_words(config: ExecutorConfig, request: DeploymentRequest)
    requires
        config_of_words(config),
        request_of_words(request),
    ensures
        all_words(arguments_of(install_command_line(config, request))),
{
    lemma_install_arguments(config, request);
    lemma_install_entries(config, request);
    lemma_install_of_words(config, request);
    lemma_entries_are_words(install_segments(config, request));
    lemma_all_words_concat(install_head(request), entries(install_segments(config, request)));
}

/// The arguments of an uninstall are words, none of them empty, as long as
/// the texts handed in are words.
pub proof fn uninstall_arguments_are_words(
    config: ExecutorConfig,
    namespace: Seq<char>,
    release_name: Seq<char>,
)
    requires
        config_of_words(config),
        is_word(namespace),
        is_word(release_name),
        uninstall_ends_with_config(config) ==> config_ends_cleanly(config),
    ensures
        all_words(arguments_of(uninstall_command_line(config, namespace, release_name))),
{
    lemma_uninstall_arguments(config, namespace, release_name);
    lemma_uninstall_entries(config);
    lemma_uninstall_of_words(config, namespace, release_name);
    lemma_entries_are_words(uninstall_segments(config));
    lemma_all_words_concat(
        uninstall_head(config, namespace, release_name),
        entries(uninstall_segments(config)),
    );
}

/// A request with its overrides taken away.
pub open spec fn without_overrides(request: DeploymentRequest) -> DeploymentRequest {
    DeploymentRequest { values_overrides: None, ..request }
}

/// The argument that holds the flag of the override at `j`.
pub open spec fn override_flag(args: Seq<Seq<char>>, start: int, j: int) -> Seq<char> {
    args[start + 2 * j]
}

/// The argument that holds the assignment of the override at `j`.
pub open spec fn override_assignment(args: Seq<Seq<char>>, start: int, j: int) -> Seq<char> {
    args[start + 2 * j + 1]
}

/// A list cut in three: what the middle part holds, and what is left
/// without it.
proof fn lemma_middle_part<A>(x: Seq<A>, m: Seq<A>, y: Seq<A>)
    ensures
        (x + m + y).len() == x.len() + m.len() + y.len(),
        (x + m + y).take(x.len() as int) + (x + m + y).skip((x.len() + m.len()) as int) == x + y,
        forall|k: int| 0 <= k < m.len() ==> (x + m + y)[x.len() + k] == m[k],
{
}

/// Eight lists in a row, grouped around the fifth.
proof fn lemma_group_around_fifth<A>(
    h: Seq<A>,
    a: Seq<A>,
    b: Seq<A>,
    c: Seq<A>,
    d: Seq<A>,
    e: Seq<A>,
    f: Seq<A>,
    g: Seq<A>,
)
    ensures
        h + (a + b + c + d + e + f + g) == (h + a + b + c) + d + (e + f + g),
{
}

/// The arguments of an install or upgrade that stand before the overrides.
pub open spec fn install_arguments_before_overrides(
    config: ExecutorConfig,
    request: DeploymentRequest,
) -> Seq<Seq<char>> {
    install_head(request) + flag_arguments("--kubeconfig"@, config.kubeconfig_path)
        + flag_arguments("--version"@, request.chart_version) + flag_arguments(
        "-f"@,
        request.values_file,
    )
}

/// How many arguments of an install or upgrade stand before the overrides.
pub open spec fn overrides_start(config: ExecutorConfig, request: DeploymentRequest) -> int {
    install_arguments_before_overrides(config, request).len() as int
}

/// The arguments of an install or upgrade that stand behind the overrides.
pub open spec fn install_arguments_after_overrides(
    config: ExecutorConfig,
    request: DeploymentRequest,
) -> Seq<Seq<char>> {
    requested_option_arguments(request.helm_options) + switch_arguments("--debug"@, config.debug)
        + install_closing(config)
}

/// The arguments of an install or upgrade in three parts: what stands
/// before the overrides, the overrides, and what stands behind them.
proof fn lemma_install_arguments_in_three(config: ExecutorConfig, request: DeploymentRequest)
    ensures
        install_arguments(config, request) == install_arguments_before_overrides(config, request)
            + requested_override_arguments(request.values_overrides)
            + install_arguments_after_overrides(config, request),
{
    lemma_group_around_fifth(
        install_head(request),
        flag_arguments("--kubeconfig"@, config.kubeconfig_path),
        flag_arguments("--version"@, request.chart_version),
        flag_arguments("-f"@, request.values_file),
        requested_override_arguments(request.values_overrides),
        requested_option_arguments(request.helm_options),
        switch_arguments("--debug"@, config.debug),
        install_closing(config),
    );
}

/// The overrides of an install or upgrade take up two arguments each, all
/// in one place: `--set`, then key, `=` and value exactly as they were
/// handed in. There are as many such pairs as the map has entries, every
/// entry is written in one of them, and without them the arguments are
/// those of the same request without overrides.
pub proof fn install_writes_each_override_once(
    config: ExecutorConfig,
    request: DeploymentRequest,
    overrides: Map<Seq<char>, Seq<char>>,
)
    requires
        config_of_words(config),
        request_of_words(request),
        request.values_overrides matches Some(pairs) && lists_entries(pairs, overrides),
    ensures
        ({
            let args = arguments_of(install_command_line(config, request));
            let rest = arguments_of(install_command_line(config, without_overrides(request)));
            let start = overrides_start(config, request);
            let n = overrides.dom().len() as int;
            let pairs = request.values_overrides->0;
            &&& pairs.len() == n
            &&& args.len() == rest.len() + 2 * n
            &&& args.take(start) + args.skip(start + 2 * n) == rest
            &&& forall|j: int|
                0 <= j < n ==> #[trigger] override_flag(args, start, j) == "--set"@
                    && override_assignment(args, start, j) == pairs[j].0 + seq!['='] + pairs[j].1
                    && overrides.contains_pair(pairs[j].0, pairs[j].1)
            &&& forall|key: Seq<char>|
                overrides.dom().contains(key) ==> exists|j: int|
                    0 <= j < n && #[trigger] override_assignment(args, start, j) == key + seq!['=']
                        + overrides[key]
        }),
{
    let args = arguments_of(install_command_line(config, request));
    let bare = without_overrides(request);
    let rest = arguments_of(install_command_line(config, bare));
    let start = overrides_start(config, request);
    let n = overrides.dom().len() as int;
    let pairs = request.values_overrides->0;
    let x = install_arguments_before_overrides(config, request);
    let d = override_arguments(pairs);
    let y = install_arguments_after_overrides(config, request);
    assert(args == x + d + y) by {
        lemma_install_arguments(config, request);
        lemma_install_arguments_in_three(config, request);
    }
    assert(rest == x + y) by {
        lemma_install_arguments(config, bare);
        lemma_install_arguments_in_three(config, bare);
        assert(install_arguments_before_overrides(config, bare) == x);
        assert(install_arguments_after_overrides(config, bare) == y);
        assert(x + Seq::<Seq<char>>::empty() + y == x + y);
    }
    assert(start == x.len());
    assert(d.len() == 2 * n);
    lemma_middle_part(x, d, y);
    assert forall|j: int| 0 <= j < n implies #[trigger] override_flag(args, start, j) == "--set"@
        && override_assignment(args, start, j) == pairs[j].0 + seq!['='] + pairs[j].1
        && overrides.contains_pair(pairs[j].0, pairs[j].1) by {
        assert(args[start + 2 * j] == d[2 * j]);
        assert(args[start + (2 * j + 1)] == d[2 * j + 1]);
        assert((2 * j) % 2 == 0);
        assert((2 * j + 1) % 2 == 1);
        assert((2 * j + 1) / 2 == j);
    }
    assert forall|key: Seq<char>| overrides.dom().contains(key) implies exists|j: int|
        0 <= j < n && #[trigger] override_assignment(args, start, j) == key + seq!['=']
            + overrides[key] by {
        let j = choose|j: int| 0 <= j < pairs.len() && (#[trigger] pairs[j]).0 == key;
        assert(overrides.contains_pair(pairs[j].0, pairs[j].1));
        assert(override_flag(args, start, j) == "--set"@);
    }
}

/// The text of segments is empty or starts with a space.
proof fn lemma_segments_open_with_space(segments: Seq<Seq<Seq<char>>>)
    ensures
        segments_text(segments).len() == 0 || segments_text(segments)[0] == ' ',
{
}

/// An override whose key is a word and whose value holds no space reaches
/// the tool whole, whatever the other texts of the request hold, spaces
/// included: the arguments hold, in one place and in order, `--set` and
/// the assignment of each override, unchanged.
pub proof fn install_keeps_overrides_whole(config: ExecutorConfig, request: DeploymentRequest)
    requires
        request.values_overrides matches Some(pairs) && pairs.len() > 0 && forall|i: int|
            0 <= i < pairs.len() ==> is_word((#[trigger] pairs[i]).0) && has_no_space(pairs[i].1),
    ensures
        ({
            let args = arguments_of(install_command_line(config, request));
            let pairs = request.values_overrides->0;
            exists|start: int|
                0 <= start && start + 2 * pairs.len() <= args.len() && #[trigger] args.subrange(
                    start,
                    start + 2 * pairs.len(),
                ) == override_arguments(pairs)
        }),
{
    let args = arguments_of(install_command_line(config, request));
    let pairs = request.values_overrides->0;
    let head = install_head(request);
    let a = flag_segments("--kubeconfig"@, config.kubeconfig_path);
    let b = flag_segments("--version"@, request.chart_version);
    let c = flag_segments("-f"@, request.values_file);
    let d = override_segments(pairs);
    let e = requested_option_segments(request.helm_options);
    let f = switch_segments("--debug"@, config.debug);
    let closing = install_closing(config);
    lemma_install_command_line(config, request);
    let before = joined(head) + segments_text(a) + segments_text(b) + segments_text(c);
    let between = segments_text(e) + segments_text(f);
    assert(install_command_line(config, request) == before + segments_text(d) + between
        + segment_text(closing));
    assert(before.len() > 0 && !is_whitespace(before[0])) by {
        reveal_strlit("upgrade");
        assert(head.len() == 6);
        assert(joined(head) == head[0] + seq![' '] + joined(head.skip(1)));
        assert(before[0] == joined(head)[0]);
        assert(joined(head)[0] == head[0][0]);
        assert(head[0][0] == 'u');
    }
    assert(between.len() == 0 || between[0] == ' ') by {
        lemma_segments_open_with_space(e);
        lemma_segments_open_with_space(f);
        if segments_text(e).len() > 0 {
            assert(between[0] == segments_text(e)[0]);
        } else {
            assert(between == segments_text(f));
        }
    }
    assert(all_words(closing) && !is_whitespace(closing.last().last())) by {
        lemma_seconds_is_word(config.timeout);
        lemma_fixed_words();
        assert(closing.last() == seconds(config.timeout));
    }
    lemma_override_segments_of_words(pairs);
    lemma_override_entries(pairs);
    let around = lemma_word_segments_stay_whole(before, d, between, closing);
    let start = around.0.len() as int;
    assert(args == around.0 + override_arguments(pairs) + around.1);
    assert(override_arguments(pairs).len() == 2 * pairs.len());
    assert(args.subrange(start, start + 2 * pairs.len()) == override_arguments(pairs));
}

/// What two lists in a row hold is what either of them holds.
proof fn lemma_concat_contains<A>(a: Seq<A>, b: Seq<A>, x: A)
    ensures
        (a + b).contains(x) <==> a.contains(x) || b.contains(x),
{
    if (a + b).contains(x) {
        let i = choose|i: int| 0 <= i < (a + b).len() && (a + b)[i] == x;
        if i < a.len() {
            assert(a[i] == x);
        } else {
            assert(b[i - a.len()] == x);
        }
    }
    if a.contains(x) {
        let i = choose|i: int| 0 <= i < a.len() && a[i] == x;
        assert((a + b)[i] == x);
    }
    if b.contains(x) {
        let i = choose|i: int| 0 <= i < b.len() && b[i] == x;
        assert((a + b)[a.len() + i] == x);
    }
}

/// The arguments of a flag with a value hold the flag and the value, and
/// only where there is a value.
proof fn lemma_flag_holds(flag: Seq<char>, value: Option<Seq<char>>, x: Seq<char>)
    requires
        flag_arguments(flag, value).contains(x),
    ensures
        value is Some,
        x == flag || value == Some(x),
{
    let args = flag_arguments(flag, value);
    let i = choose|i: int| 0 <= i < args.len() && args[i] == x;
    assert(args[i] == x);
}

/// The argument of a flag without a value is the flag, and only where it
/// is switched on.
proof fn lemma_switch_holds(flag: Seq<char>, on: bool, x: Seq<char>)
    requires
        switch_arguments(flag, on).contains(x),
    ensures
        on,
        x == flag,
{
    let args = switch_arguments(flag, on);
    let i = choose|i: int| 0 <= i < args.len() && args[i] == x;
    assert(args[i] == x);
}

/// The arguments of the overrides hold `--set` and the assignments, and
/// only where there is an override.
proof fn lemma_overrides_hold(pairs: Option<Seq<(Seq<char>, Seq<char>)>>, x: Seq<char>)
    requires
        requested_override_arguments(pairs).contains(x),
    ensures
        pairs is Some,
        pairs->0.len() > 0,
        x == "--set"@ || exists|i: int|
            0 <= i < pairs->0.len() && x == assignment(#[trigger] pairs->0[i]),
{
    let args = requested_override_arguments(pairs);
    let k = choose|k: int| 0 <= k < args.len() && args[k] == x;
    assert(args[k] == x);
    if k % 2 != 0 {
        assert(x == assignment(pairs->0[k / 2]));
    }
}

/// Whether `word` is the word of one of the flags that stand for an option.
pub open spec fn is_option_flag(word: Seq<char>) -> bool {
    ||| word == "--kubeconfig"@
    ||| word == "--version"@
    ||| word == "-f"@
    ||| word == "--set"@
    ||| word == "--debug"@
    ||| word == "-n"@
}

/// The words of the flags differ from each other.
proof fn lemma_flags_differ()
    ensures
        "--kubeconfig"@ != "--version"@,
        "--kubeconfig"@ != "-f"@,
        "--kubeconfig"@ != "--set"@,
        "--kubeconfig"@ != "--debug"@,
        "--kubeconfig"@ != "-n"@,
        "--version"@ != "-f"@,
        "--version"@ != "--set"@,
        "--version"@ != "--debug"@,
        "--version"@ != "-n"@,
        "-f"@ != "--set"@,
        "-f"@ != "--debug"@,
        "-f"@ != "-n"@,
        "--set"@ != "--debug"@,
        "--set"@ != "-n"@,
        "--debug"@ != "-n"@,
{
    reveal_strlit("-n");
    reveal_strlit("--kubeconfig");
    reveal_strlit("--version");
    reveal_strlit("-f");
    reveal_strlit("--set");
    reveal_strlit("--debug");
    assert("--kubeconfig"@.len() == 12);
    assert("--version"@.len() == 9);
    assert("--debug"@.len() == 7);
    assert("--set"@.len() == 5);
    assert("-f"@.len() == 2 && "-n"@.len() == 2);
    assert("-f"@[1] == 'f' && "-n"@[1] == 'n');
}

/// The word of a flag differs from every word that the library writes by
/// itself without being asked.
proof fn lemma_flag_is_no_other_word(flag: Seq<char>, timeout: u16)
    requires
        is_option_flag(flag),
    ensures
        flag != "ls"@,
        flag != "upgrade"@,
        flag != "uninstall"@,
        flag != "--install"@,
        flag != "-o"@,
        flag != "json"@,
        flag != "--timeout"@,
        flag != seconds(timeout),
        flag != "--timeout="@ + seconds(timeout),
{
    reveal_strlit("ls");
    reveal_strlit("upgrade");
    reveal_strlit("uninstall");
    reveal_strlit("--install");
    reveal_strlit("-n");
    reveal_strlit("-o");
    reveal_strlit("json");
    reveal_strlit("--kubeconfig");
    reveal_strlit("--version");
    reveal_strlit("-f");
    reveal_strlit("--set");
    reveal_strlit("--debug");
    reveal_strlit("--timeout");
    reveal_strlit("--timeout=");
    lemma_seconds_is_word(timeout);
    let clock = seconds(timeout);
    let long = "--timeout="@ + clock;
    assert(long[2] == 't');
    assert(long.len() > 10);
    assert("--kubeconfig"@[0] == '-' && "--kubeconfig"@[2] == 'k');
    assert("--version"@[0] == '-' && "--version"@[2] == 'v');
    assert("-f"@[0] == '-' && "-f"@[1] == 'f');
    assert("--set"@[0] == '-' && "--set"@[2] == 's');
    assert("--debug"@[0] == '-' && "--debug"@[2] == 'd');
    assert("-n"@[1] == 'n' && "-o"@[1] == 'o' && "-n"@[0] == '-' && "-o"@[0] == '-');
    assert("ls"@[0] == 'l' && "upgrade"@[0] == 'u' && "uninstall"@[0] == 'u');
    assert("json"@[0] == 'j');
    assert("--install"@[2] == 'i' && "--timeout"@[2] == 't');
    assert(flag[0] == '-');
}

/// Whether `word` is one of the texts handed in for an install or upgrade:
/// namespace, release, chart, configuration file, version, values file, an
/// assignment or a further option.
pub open spec fn install_is_given(
    config: ExecutorConfig,
    request: DeploymentRequest,
    word: Seq<char>,
) -> bool {
    ||| word == request.namespace
    ||| word == request.release_name
    ||| word == request.chart_name
    ||| config.kubeconfig_path == Some(word)
    ||| request.chart_version == Some(word)
    ||| request.values_file == Some(word)
    ||| request.values_overrides matches Some(pairs) && exists|i: int|
        0 <= i < pairs.len() && word == assignment(#[trigger] pairs[i])
    ||| request.helm_options matches Some(options) && options.contains(word)
}

/// Whether `word` is one of the words that the library writes by itself
/// for this install or upgrade.
pub open spec fn install_writes(
    config: ExecutorConfig,
    request: DeploymentRequest,
    word: Seq<char>,
) -> bool {
    ||| word == "upgrade"@
    ||| word == "--install"@
    ||| word == "-n"@
    ||| word == "-o"@
    ||| word == "json"@
    ||| word == "--timeout"@
    ||| word == seconds(config.timeout)
    ||| word == "--kubeconfig"@ && config.kubeconfig_path is Some
    ||| word == "--version"@ && request.chart_version is Some
    ||| word == "-f"@ && request.values_file is Some
    ||| word == "--set"@ && request.values_overrides is Some && request.values_overrides->0.len()
        > 0
    ||| word == "--debug"@ && config.debug
}

/// Every argument of `install_arguments` was handed in or is written by
/// the library for something that was asked for.
proof fn lemma_install_argument_origin(
    config: ExecutorConfig,
    request: DeploymentRequest,
    word: Seq<char>,
)
    requires
        install_arguments(config, request).contains(word),
    ensures
        install_is_given(config, request, word) || install_writes(config, request, word),
{
    let h = install_head(request);
    let a = flag_arguments("--kubeconfig"@, config.kubeconfig_path);
    let b = flag_arguments("--version"@, request.chart_version);
    let c = flag_arguments("-f"@, request.values_file);
    let d = requested_override_arguments(request.values_overrides);
    let e = requested_option_arguments(request.helm_options);
    let f = switch_arguments("--debug"@, config.debug);
    let g = install_closing(config);
    lemma_concat_contains(h, install_further_arguments(config, request), word);
    lemma_concat_contains(a + b + c + d + e + f, g, word);
    lemma_concat_contains(a + b + c + d + e, f, word);
    lemma_concat_contains(a + b + c + d, e, word);
    lemma_concat_contains(a + b + c, d, word);
    lemma_concat_contains(a + b, c, word);
    lemma_concat_contains(a, b, word);
    if h.contains(word) {
        let i = choose|i: int| 0 <= i < h.len() && h[i] == word;
        assert(h[i] == word);
    } else if a.contains(word) {
        lemma_flag_holds("--kubeconfig"@, config.kubeconfig_path, word);
    } else if b.contains(word) {
        lemma_flag_holds("--version"@, request.chart_version, word);
    } else if c.contains(word) {
        lemma_flag_holds("-f"@, request.values_file, word);
    } else if d.contains(word) {
        lemma_overrides_hold(request.values_overrides, word);
    } else if e.contains(word) {
    } else if f.contains(word) {
        lemma_switch_holds("--debug"@, config.debug, word);
    } else {
        let i = choose|i: int| 0 <= i < g.len() && g[i] == word;
        assert(g[i] == word);
    }
}

/// What is left out of an install or upgrade leaves no trace: without a
/// configuration file there is no `--kubeconfig`, without a version no
/// `--version`, without a values file no `-f`, without an override no
/// `--set`, and with debug off no `--debug` among the arguments, unless
/// one of the texts handed in is that very word.
pub proof fn install_leaves_out_omitted_flags(config: ExecutorConfig, request: DeploymentRequest)
    requires
        config_of_words(config),
        request_of_words(request),
    ensures
        ({
            let args = arguments_of(install_command_line(config, request));
            &&& config.kubeconfig_path is None && !install_is_given(
                config,
                request,
                "--kubeconfig"@,
            ) ==> !args.contains("--kubeconfig"@)
            &&& request.chart_version is None && !install_is_given(config, request, "--version"@)
                ==> !args.contains("--version"@)
            &&& request.values_file is None && !install_is_given(config, request, "-f"@)
                ==> !args.contains("-f"@)
            &&& (request.values_overrides matches Some(pairs) ==> pairs.len() == 0)
                && !install_is_given(config, request, "--set"@) ==> !args.contains("--set"@)
            &&& !config.debug && !install_is_given(config, request, "--debug"@) ==> !args.contains(
                "--debug"@,
            )
        }),
{
    lemma_install_arguments(config, request);
    lemma_flags_differ();
    lemma_flag_is_no_other_word("--kubeconfig"@, config.timeout);
    lemma_flag_is_no_other_word("--version"@, config.timeout);
    lemma_flag_is_no_other_word("-f"@, config.timeout);
    lemma_flag_is_no_other_word("--set"@, config.timeout);
    lemma_flag_is_no_other_word("--debug"@, config.timeout);
    let args = install_arguments(config, request);
    if args.contains("--kubeconfig"@) {
        lemma_install_argument_origin(config, request, "--kubeconfig"@);
    }
    if args.contains("--version"@) {
        lemma_install_argument_origin(config, request, "--version"@);
    }
    if args.contains("-f"@) {
        lemma_install_argument_origin(config, request, "-f"@);
    }
    if args.contains("--set"@) {
        lemma_install_argument_origin(config, request, "--set"@);
    }
    if args.contains("--debug"@) {
        lemma_install_argument_origin(config, request, "--debug"@);
    }
}

/// What is left out of a listing leaves no trace: without a configuration
/// file there is no `--kubeconfig`, without a namespace no `-n`, and with
/// debug off no `--debug` among the arguments, unless the namespace or the
/// configuration file is that very word.
pub proof fn list_leaves_out_omitted_flags(config: ExecutorConfig, namespace: Option<Seq<char>>)
    requires
        config_of_words(config),
        namespace matches Some(ns) ==> is_word(ns),
        list_ends_with_config(config, namespace) ==> config_ends_cleanly(config),
    ensures
        ({
            let args = arguments_of(list_command_line(config, namespace));
            &&& config.kubeconfig_path is None && namespace != Some("--kubeconfig"@)
                ==> !args.contains("--kubeconfig"@)
            &&& namespace is None && config.kubeconfig_path != Some("-n"@) ==> !args.contains(
                "-n"@,
            )
            &&& !config.debug && namespace != Some("--debug"@) && config.kubeconfig_path != Some(
                "--debug"@,
            ) ==> !args.contains("--debug"@)
        }),
{
    lemma_list_arguments(config, namespace);
    lemma_flags_differ();
    lemma_flag_is_no_other_word("--kubeconfig"@, config.timeout);
    lemma_flag_is_no_other_word("-n"@, config.timeout);
    lemma_flag_is_no_other_word("--debug"@, config.timeout);
    let h = list_head();
    let a = flag_arguments("--kubeconfig"@, config.kubeconfig_path);
    let b = namespace_arguments(namespace);
    let c = switch_arguments("--debug"@, config.debug);
    assert(list_arguments(config, namespace) == h + (a + b + c));
    assert forall|word: Seq<char>|
        is_option_flag(word) && #[trigger] list_arguments(config, namespace).contains(
            word,
        ) implies (word == "--kubeconfig"@ && config.kubeconfig_path is Some) || (word == "--debug"@
        && config.debug) || (word == "-n"@ && namespace is Some) || config.kubeconfig_path == Some(
        word,
    ) || namespace == Some(word) by {
        lemma_flag_is_no_other_word(word, config.timeout);
        lemma_concat_contains(h, a + b + c, word);
        lemma_concat_contains(a + b, c, word);
        lemma_concat_contains(a, b, word);
        if h.contains(word) {
            let i = choose|i: int| 0 <= i < h.len() && h[i] == word;
            assert(h[i] == word);
        } else if a.contains(word) {
            lemma_flag_holds("--kubeconfig"@, config.kubeconfig_path, word);
        } else if b.contains(word) {
            let i = choose|i: int| 0 <= i < b.len() && b[i] == word;
            assert(b[i] == word);
        } else {
            lemma_switch_holds("--debug"@, config.debug, word);
        }
    }
}

/// What is left out of an uninstall leaves no trace: without a
/// configuration file there is no `--kubeconfig`, and with debug off no
/// `--debug` among the arguments, unless namespace, release name or
/// configuration file is that very word.
pub proof fn uninstall_leaves_out_omitted_flags(
    config: ExecutorConfig,
    namespace: Seq<char>,
    release_name: Seq<char>,
)
    requires
        config_of_words(config),
        is_word(namespace),
        is_word(release_name),
        uninstall_ends_with_config(config) ==> config_ends_cleanly(config),
    ensures
        ({
            let args = arguments_of(uninstall_command_line(config, namespace, release_name));
            &&& config.kubeconfig_path is None && namespace != "--kubeconfig"@ && release_name
                != "--kubeconfig"@ ==> !args.contains("--kubeconfig"@)
            &&& !config.debug && namespace != "--debug"@ && release_name != "--debug"@
                && config.kubeconfig_path != Some("--debug"@) ==> !args.contains("--debug"@)
        }),
{
    lemma_uninstall_arguments(config, namespace, release_name);
    lemma_flags_differ();
    let h = uninstall_head(config, namespace, release_name);
    let a = flag_arguments("--kubeconfig"@, config.kubeconfig_path);
    let b = switch_arguments("--debug"@, config.debug);
    assert(uninstall_arguments(config, namespace, release_name) == h + (a + b));
    assert forall|word: Seq<char>|
        (word == "--kubeconfig"@ || word == "--debug"@) && #[trigger] uninstall_arguments(
            config,
            namespace,
            release_name,
        ).contains(word) implies (word == "--kubeconfig"@ && config.kubeconfig_path is Some) || (
    word == "--debug"@ && config.debug) || config.kubeconfig_path == Some(word) || namespace
        == word || release_name == word by {
        lemma_flag_is_no_other_word(word, config.timeout);
        lemma_concat_contains(h, a + b, word);
        lemma_concat_contains(a, b, word);
        if h.contains(word) {
            let i = choose|i: int| 0 <= i < h.len() && h[i] == word;
            assert(h[i] == word);
        } else if a.contains(word) {
            lemma_flag_holds("--kubeconfig"@, config.kubeconfig_path, word);
        } else {
            lemma_switch_holds("--debug"@, config.debug, word);
        }
    }
}

/// In safe mode nothing that may hold a secret reaches the log: what is
/// logged about the overrides is the same whatever they are, and nothing
/// is logged about the arguments or about the tool's output.
pub proof fn safe_mode_logs_no_secret(
    config: ExecutorConfig,
    overrides: Seq<(Seq<char>, Seq<char>)>,
    others: Seq<(Seq<char>, Seq<char>)>,
    args: Seq<Seq<char>>,
    output: ProcessOutput,
)
    requires
        !config.unsafe_mode,
    ensures
        override_lines(config, Some(overrides)) == override_lines(config, Some(others)),
        argument_lines(config, args).len() == 0,
        output_lines(config, output).len() == 0,
{
}

} // verus!
