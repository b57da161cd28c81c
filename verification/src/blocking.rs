//! The executor's configuration and the arguments that it hands to the
//! tool for each operation.
use vstd::prelude::*;
use vstd::string::StringExecFns;
use crate::command::{
    install_closing, install_command_line, install_head, lemma_install_command_line,
    lemma_list_command_line, lemma_uninstall_command_line, list_command_line, list_head,
    optional_text, push_flag, push_joined, push_namespace, push_options, push_overrides,
    push_segment, push_switch, seconds_text, texts_of_options, texts_of_pairs,
    uninstall_command_line, uninstall_head, DeploymentRequest, ExecutorConfig,
};
use crate::error::HelmWrapperError;
use crate::line::arguments_of;
use crate::response::{HelmListItem, HelmUpgradeStatus};
use crate::outside::{
    display_of, lists_entries, non_blank_text, override_entries, override_pairs, path_display,
    text_of,
};
use crate::text::{normalized, normalized_text, split_text, text_of_option, texts};
use non_blank_string_rs::NonBlankString;
use std::collections::HashMap;
use std::path::PathBuf;

verus! {

/// The three operations on releases. Whoever runs the tool implements
/// them; nothing is promised of an implementation in general, since what
/// comes back depends on the tool and on the cluster.
pub trait HelmExecutor {
    /// The releases of a namespace, or of the tool's default scope.
    fn list(&self, namespace: Option<&NonBlankString>) -> Result<
        Vec<HelmListItem>,
        HelmWrapperError,
    >;

    /// Installs a chart as a release, or upgrades the release if it exists.
    fn install_or_upgrade(
        &self,
        namespace: &NonBlankString,
        release_name: &NonBlankString,
        chart_name: &NonBlankString,
        chart_version: Option<&NonBlankString>,
        values_overrides: Option<&HashMap<NonBlankString, String>>,
        values_file: Option<&PathBuf>,
        helm_options: Option<&Vec<NonBlankString>>,
    ) -> Result<HelmUpgradeStatus, HelmWrapperError>;

    /// Removes a release.
    fn uninstall(&self, namespace: &NonBlankString, release_name: &NonBlankString) -> Result<
        (),
        HelmWrapperError,
    >;
}

/// Holds the configuration with which the tool is run and builds the
/// tool's arguments from it. It is not changed after it is made. It does
/// not run the tool: whoever does hands it these arguments and hands what
/// the run left behind to the functions that read it.
#[derive(Debug)]
pub struct DefaultHelmExecutor {
    helm_path: String,
    kubeconfig_path: Option<String>,
    timeout: u16,
    debug: bool,
    unsafe_mode: bool,
}

/// The text held by an optional non-blank string.
pub open spec fn text_of_non_blank(value: Option<&NonBlankString>) -> Option<Seq<char>> {
    match value {
        Some(v) => Some(non_blank_text(*v)),
        None => None,
    }
}

/// The displayed form of an optional path.
pub open spec fn text_of_path(value: Option<&PathBuf>) -> Option<Seq<char>> {
    match value {
        Some(p) => Some(path_display(*p)),
        None => None,
    }
}

/// The texts held by a list of non-blank strings.
pub open spec fn non_blank_texts(values: Seq<NonBlankString>) -> Seq<Seq<char>> {
    Seq::new(values.len(), |i: int| non_blank_text(values[i]))
}

/// The texts held by an optional list of non-blank strings.
pub open spec fn texts_of_non_blanks(value: Option<&Vec<NonBlankString>>) -> Option<
    Seq<Seq<char>>,
> {
    match value {
        Some(options) => Some(non_blank_texts(options@)),
        None => None,
    }
}

/// An install or upgrade as it is asked of an executor, with the overrides
/// in the order `pairs`.
pub open spec fn request_of(
    namespace: &NonBlankString,
    release_name: &NonBlankString,
    chart_name: &NonBlankString,
    chart_version: Option<&NonBlankString>,
    pairs: Option<Seq<(Seq<char>, Seq<char>)>>,
    values_file: Option<&PathBuf>,
    helm_options: Option<&Vec<NonBlankString>>,
) -> DeploymentRequest {
    DeploymentRequest {
        namespace: non_blank_text(*namespace),
        release_name: non_blank_text(*release_name),
        chart_name: non_blank_text(*chart_name),
        chart_version: text_of_non_blank(chart_version),
        values_overrides: pairs,
        values_file: text_of_path(values_file),
        helm_options: texts_of_non_blanks(helm_options),
    }
}

/// An optional value, borrowed.
pub open spec fn borrowed<T>(value: &Option<T>) -> Option<&T> {
    match value {
        Some(v) => Some(v),
        None => None,
    }
}

/// An install or upgrade as it is asked with plain texts.
pub open spec fn request_from_text(
    namespace: &str,
    release_name: &str,
    chart_name: &str,
    chart_version: Option<&str>,
    overrides: Option<&Vec<(String, String)>>,
    values_file: Option<&str>,
    helm_options: Option<&Vec<String>>,
) -> DeploymentRequest {
    DeploymentRequest {
        namespace: namespace@,
        release_name: release_name@,
        chart_name: chart_name@,
        chart_version: optional_text(chart_version),
        values_overrides: texts_of_pairs(overrides),
        values_file: optional_text(values_file),
        helm_options: texts_of_options(helm_options),
    }
}

/// `pairs` lists the entries of the map of overrides, if there is a map.
pub open spec fn lists_overrides(
    pairs: Option<Seq<(Seq<char>, Seq<char>)>>,
    values_overrides: Option<&HashMap<NonBlankString, String>>,
) -> bool {
    match values_overrides {
        Some(m) => pairs is Some && lists_entries(pairs->0, override_entries(*m)),
        None => pairs is None,
    }
}

impl View for DefaultHelmExecutor {
    type V = ExecutorConfig;

    closed spec fn view(&self) -> ExecutorConfig {
        ExecutorConfig {
            helm_path: self.helm_path@,
            kubeconfig_path: text_of_option(self.kubeconfig_path),
            timeout: self.timeout,
            debug: self.debug,
            unsafe_mode: self.unsafe_mode,
        }
    }
}

impl Clone for DefaultHelmExecutor {
    fn clone(&self) -> (copy: Self)
        ensures
            copy@ == self@,
    {
        proof {
            use_type_invariant(self);
        }
        Self {
            helm_path: self.helm_path.clone(),
            kubeconfig_path: match &self.kubeconfig_path {
                Some(path) => Some(path.clone()),
                None => None,
            },
            timeout: self.timeout,
            debug: self.debug,
            unsafe_mode: self.unsafe_mode,
        }
    }
}

impl DefaultHelmExecutor {
    #[verifier::type_invariant]
    spec fn has_executable(self) -> bool {
        self.helm_path@.len() > 0
    }

    /// An executor that runs `helm` as found on the search path, without a
    /// configuration file, with a timeout of 15 seconds, and with debug and
    /// unsafe mode off.
    pub fn new() -> (executor: Self)
        ensures
            executor@ == (ExecutorConfig {
                helm_path: "helm"@,
                kubeconfig_path: None,
                timeout: 15,
                debug: false,
                unsafe_mode: false,
            }),
    {
        proof {
            reveal_strlit("helm");
        }
        Self {
            helm_path: "helm".to_owned(),
            kubeconfig_path: None,
            timeout: 15,
            debug: false,
            unsafe_mode: false,
        }
    }

    /// An executor with every option given.
    pub fn new_with_opts(
        helm_path: &NonBlankString,
        kubeconfig_path: Option<String>,
        timeout: u16,
        debug: bool,
        unsafe_mode: bool,
    ) -> (executor: Self)
        ensures
            executor@ == (ExecutorConfig {
                helm_path: non_blank_text(*helm_path),
                kubeconfig_path: text_of_option(kubeconfig_path),
                timeout,
                debug,
                unsafe_mode,
            }),
    {
        Self {
            helm_path: text_of(helm_path).to_owned(),
            kubeconfig_path,
            timeout,
            debug,
            unsafe_mode,
        }
    }

    /// Name or path of the tool's executable; never empty.
    pub fn get_helm_path(&self) -> (path: &str)
        ensures
            path@ == self@.helm_path,
            path@.len() > 0,
    {
        proof {
            use_type_invariant(self);
        }
        self.helm_path.as_str()
    }

    /// Path of the cluster configuration file, if one is passed on.
    pub fn get_kubeconfig_path(&self) -> (path: &Option<String>)
        ensures
            text_of_option(*path) == self@.kubeconfig_path,
    {
        &self.kubeconfig_path
    }

    /// Seconds that the tool may take.
    pub fn get_timeout(&self) -> (timeout: u16)
        ensures
            timeout == self@.timeout,
    {
        self.timeout
    }

    /// Whether the tool is asked for verbose output.
    pub fn get_debug(&self) -> (debug: bool)
        ensures
            debug == self@.debug,
    {
        self.debug
    }

    /// Whether sensitive values may be written to the log.
    pub fn get_unsafe_mode(&self) -> (unsafe_mode: bool)
        ensures
            unsafe_mode == self@.unsafe_mode,
    {
        self.unsafe_mode
    }

    /// `input` with each pair of spaces replaced by one space, in one pass
    /// from the left, and then without leading and trailing whitespace.
    pub fn remove_double_spaces_and_trim(&self, input: &str) -> (output: String)
        ensures
            output@ == normalized(input@),
    {
        normalized_text(input)
    }

    /// The arguments of an assembled command line.
    fn arguments(&self, line: &str) -> (args: Vec<String>)
        ensures
            texts(args@) == arguments_of(line@),
    {
        let normal = self.remove_double_spaces_and_trim(line);
        split_text(normal.as_str())
    }

    /// The configuration file as a string slice, if one is configured.
    fn kubeconfig(&self) -> (path: Option<&str>)
        ensures
            optional_text(path) == self@.kubeconfig_path,
    {
        match &self.kubeconfig_path {
            Some(path) => Some(path.as_str()),
            None => None,
        }
    }

    /// The arguments with which the tool lists releases.
    ///
    /// The command line is assembled as text, normalised and split at
    /// spaces. A namespace or configuration file that holds a space reaches
    /// the tool as more than one argument; without a space it reaches the
    /// tool whole (`arguments::lemma_list_arguments`).
    pub fn list_args(&self, namespace: Option<&NonBlankString>) -> (args: Vec<String>)
        ensures
            texts(args@) == arguments_of(list_command_line(self@, text_of_non_blank(namespace))),
    {
        self.list_args_from_text(text_of_optional(namespace))
    }

    /// The arguments with which the tool lists releases, for a namespace
    /// given as plain text. Nothing is checked: an empty namespace is
    /// written as it is.
    pub fn list_args_from_text(&self, namespace: Option<&str>) -> (args: Vec<String>)
        ensures
            texts(args@) == arguments_of(list_command_line(self@, optional_text(namespace))),
    {
        let mut line = String::new();
        let head = vec!["ls".to_owned()];
        assert(texts(head@) == list_head());
        push_joined(&mut line, &head);
        push_flag(&mut line, "--kubeconfig", self.kubeconfig());
        push_namespace(&mut line, namespace);
        push_switch(&mut line, "--debug", self.debug);
        proof {
            lemma_list_command_line(self@, optional_text(namespace));
        }
        self.arguments(line.as_str())
    }

    /// The arguments with which the tool installs or upgrades a release,
    /// for a request given as plain texts and with the overrides written in
    /// the order of `overrides`. Nothing is checked: an empty text is
    /// written as it is.
    ///
    /// The command line is assembled as text, normalised and split at
    /// spaces. Nothing is quoted or escaped: a text that holds a space
    /// reaches the tool as more than one argument, and three spaces in a
    /// row leave an empty argument. Texts without a space reach the tool
    /// whole and unchanged (`arguments::lemma_install_arguments`), and
    /// overrides without a space do so whatever the other texts hold
    /// (`laws::install_keeps_overrides_whole`).
    pub fn install_or_upgrade_args_from_text(
        &self,
        namespace: &str,
        release_name: &str,
        chart_name: &str,
        chart_version: Option<&str>,
        overrides: Option<&Vec<(String, String)>>,
        values_file: Option<&str>,
        helm_options: Option<&Vec<String>>,
    ) -> (args: Vec<String>)
        ensures
            texts(args@) == arguments_of(
                install_command_line(
                    self@,
                    request_from_text(
                        namespace,
                        release_name,
                        chart_name,
                        chart_version,
                        overrides,
                        values_file,
                        helm_options,
                    ),
                ),
            ),
    {
        let ghost request = request_from_text(
            namespace,
            release_name,
            chart_name,
            chart_version,
            overrides,
            values_file,
            helm_options,
        );
        let mut line = String::new();
        let head = vec![
            "upgrade".to_owned(),
            "--install".to_owned(),
            "-n".to_owned(),
            namespace.to_owned(),
            release_name.to_owned(),
            chart_name.to_owned(),
        ];
        assert(texts(head@) == install_head(request));
        push_joined(&mut line, &head);
        push_flag(&mut line, "--kubeconfig", self.kubeconfig());
        push_flag(&mut line, "--version", chart_version);
        push_flag(&mut line, "-f", values_file);
        push_overrides(&mut line, overrides);
        push_options(&mut line, helm_options);
        push_switch(&mut line, "--debug", self.debug);
        let closing = vec![
            "-o".to_owned(),
            "json".to_owned(),
            "--timeout".to_owned(),
            seconds_text(self.timeout),
        ];
        assert(texts(closing@) == install_closing(self@));
        push_segment(&mut line, &closing);
        proof {
            lemma_install_command_line(self@, request);
        }
        self.arguments(line.as_str())
    }

    /// The arguments with which the tool installs or upgrades a release. The
    /// overrides are written in the order in which the map hands them out,
    /// which is not fixed: the result is that of
    /// `install_or_upgrade_args_from_text` for some listing of the map.
    pub fn install_or_upgrade_args(
        &self,
        namespace: &NonBlankString,
        release_name: &NonBlankString,
        chart_name: &NonBlankString,
        chart_version: Option<&NonBlankString>,
        values_overrides: Option<&HashMap<NonBlankString, String>>,
        values_file: Option<&PathBuf>,
        helm_options: Option<&Vec<NonBlankString>>,
    ) -> (args: Vec<String>)
        ensures
            exists|pairs: Option<Seq<(Seq<char>, Seq<char>)>>|
                lists_overrides(pairs, values_overrides) && texts(args@) == arguments_of(
                    install_command_line(
                        self@,
                        #[trigger] request_of(
                            namespace,
                            release_name,
                            chart_name,
                            chart_version,
                            pairs,
                            values_file,
                            helm_options,
                        ),
                    ),
                ),
    {
        let pairs = listed(values_overrides);
        let shown = displayed(values_file);
        let options = texts_of(helm_options);
        let args = self.install_or_upgrade_args_from_text(
            text_of(namespace),
            text_of(release_name),
            text_of(chart_name),
            text_of_optional(chart_version),
            pairs.as_ref(),
            as_slice(&shown),
            options.as_ref(),
        );
        proof {
            let order = texts_of_pairs(borrowed(&pairs));
            let request = request_of(
                namespace,
                release_name,
                chart_name,
                chart_version,
                order,
                values_file,
                helm_options,
            );
            assert(texts(args@) == arguments_of(install_command_line(self@, request)));
            assert(lists_overrides(order, values_overrides));
        }
        args
    }

    /// The arguments with which the tool uninstalls a release.
    ///
    /// The command line is assembled as text, normalised and split at
    /// spaces, as for the other operations
    /// (`arguments::lemma_uninstall_arguments`).
    pub fn uninstall_args(
        &self,
        namespace: &NonBlankString,
        release_name: &NonBlankString,
    ) -> (args: Vec<String>)
        ensures
            texts(args@) == arguments_of(
                uninstall_command_line(
                    self@,
                    non_blank_text(*namespace),
                    non_blank_text(*release_name),
                ),
            ),
    {
        self.uninstall_args_from_text(text_of(namespace), text_of(release_name))
    }

    /// The arguments with which the tool uninstalls a release, for a
    /// namespace and a release name given as plain texts. Nothing is
    /// checked: an empty text is written as it is.
    pub fn uninstall_args_from_text(&self, namespace: &str, release_name: &str) -> (args: Vec<
        String,
    >)
        ensures
            texts(args@) == arguments_of(
                uninstall_command_line(self@, namespace@, release_name@),
            ),
    {
        let mut timeout = "--timeout=".to_owned();
        let shown = seconds_text(self.timeout);
        timeout.append(shown.as_str());
        let mut line = String::new();
        let head = vec![
            "uninstall".to_owned(),
            "-n".to_owned(),
            namespace.to_owned(),
            release_name.to_owned(),
            timeout,
        ];
        assert(texts(head@) == uninstall_head(self@, namespace@, release_name@));
        push_joined(&mut line, &head);
        push_flag(&mut line, "--kubeconfig", self.kubeconfig());
        push_switch(&mut line, "--debug", self.debug);
        proof {
            lemma_uninstall_command_line(self@, namespace@, release_name@);
        }
        self.arguments(line.as_str())
    }
}

/// The entries of the map of overrides in the order in which it hands them
/// out, if there is a map.
pub(crate) fn listed(values_overrides: Option<&HashMap<NonBlankString, String>>) -> (pairs: Option<
    Vec<(String, String)>,
>)
    ensures
        lists_overrides(texts_of_pairs(borrowed(&pairs)), values_overrides),
{
    match values_overrides {
        Some(map) => Some(override_pairs(map)),
        None => None,
    }
}

/// The texts held by an optional list of non-blank strings.
fn texts_of(values: Option<&Vec<NonBlankString>>) -> (list: Option<Vec<String>>)
    ensures
        texts_of_options(borrowed(&list)) == texts_of_non_blanks(values),
{
    match values {
        Some(options) => {
            let mut list: Vec<String> = Vec::new();
            let mut i: usize = 0;
            while i < options.len()
                invariant
                    i <= options.len(),
                    list@.len() == i,
                    forall|k: int| 0 <= k < i ==> list@[k]@ == non_blank_text(options@[k]),
                decreases options.len() - i,
            {
                list.push(text_of(&options[i]).to_owned());
                i += 1;
            }
            assert(texts(list@) == non_blank_texts(options@));
            Some(list)
        },
        None => None,
    }
}

/// The text of an optional non-blank string, as a slice.
fn text_of_optional(value: Option<&NonBlankString>) -> (text: Option<&str>)
    ensures
        optional_text(text) == text_of_non_blank(value),
{
    match value {
        Some(v) => Some(text_of(v)),
        None => None,
    }
}

/// The displayed form of an optional path.
fn displayed(path: Option<&PathBuf>) -> (text: Option<String>)
    ensures
        text_of_option(text) == text_of_path(path),
{
    match path {
        Some(p) => Some(display_of(p)),
        None => None,
    }
}

/// An optional string as an optional slice.
fn as_slice(value: &Option<String>) -> (text: Option<&str>)
    ensures
        optional_text(text) == text_of_option(*value),
{
    match value {
        Some(v) => Some(v.as_str()),
        None => None,
    }
}

} // verus!
