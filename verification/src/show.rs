//! The `show` commands of the interactive scenario console: what they print
//! about the nodes of a running scenario.
//!
//! A command computes the lines to print; asking the nodes and printing are
//! the caller's.

use vstd::prelude::*;
use vstd::string::*;
use crate::decimal::{digits_of, to_decimal};
use crate::error::texts;

verus! {

/// A line of a node's log.
#[derive(Debug)]
pub struct LogLine {
    pub text: String,
    /// Whether the node logged the line as an error.
    pub is_error: bool,
}

/// What the commands show of a node. The texts are as the node renders them.
#[derive(Debug)]
pub struct Node {
    pub alias: String,
    pub logs: Vec<LogLine>,
    /// Number of fragments in the node's fragment log.
    pub fragment_count: usize,
    /// The node's fragment log.
    pub fragments: String,
    /// Height of the node's last block.
    pub block_height: String,
    /// The node's statistics.
    pub stats: String,
    /// The node's active vote plans.
    pub vote_plans: String,
}

/// The nodes and services of a running scenario.
#[derive(Debug)]
pub struct UserInteractionController {
    pub nodes: Vec<Node>,
    pub legacy_nodes: Vec<Node>,
    /// Aliases of the voting stations.
    pub vit_stations: Vec<String>,
    /// Aliases of the wallet proxies.
    pub proxies: Vec<String>,
}

/// Why a command printed nothing.
#[derive(Debug)]
pub enum ShowError {
    /// No node goes by this alias.
    NodeNotFound(String),
}

/// Prints which nodes are up.
#[derive(Debug)]
pub struct ShowStatus {
    pub alias: Option<String>,
}

/// Prints the statistics of nodes.
#[derive(Debug)]
pub struct ShowNodeStats {
    pub alias: Option<String>,
}

/// Prints the logs of nodes: all lines, the errors only, the lines that
/// contain a text, or the newest lines.
#[derive(Debug)]
pub struct ShowLogs {
    pub alias: Option<String>,
    pub only_errors: bool,
    pub contains: Option<String>,
    pub tail: Option<usize>,
}

/// Prints how many fragments nodes have logged.
#[derive(Debug)]
pub struct ShowFragmentCount {
    pub alias: Option<String>,
}

/// Prints the fragments that nodes have logged.
#[derive(Debug)]
pub struct ShowFragments {
    pub alias: Option<String>,
}

/// Prints the height of the last block of nodes.
#[derive(Debug)]
pub struct ShowBlockHeight {
    pub alias: Option<String>,
}

/// Prints the active vote plans of nodes.
#[derive(Debug)]
pub struct ActiveVotePlans {
    pub alias: Option<String>,
}

/// Prints the peer statistics of nodes.
#[derive(Debug)]
pub struct ShowPeerStats {
    pub alias: Option<String>,
}

/// The `show` commands.
#[derive(Debug)]
pub enum Show {
    /// Prints which nodes are up.
    Status(ShowStatus),
    /// Prints fragment counts.
    FragmentCount(ShowFragmentCount),
    /// Prints the list of received fragments.
    Fragments(ShowFragments),
    /// Prints the block height.
    BlockHeight(ShowBlockHeight),
    /// Prints peer statistics.
    PeerStats(ShowPeerStats),
    /// Prints statistics.
    Stats(ShowNodeStats),
    /// Prints logs.
    Logs(ShowLogs),
    /// Prints the active vote plans.
    VotePlans(ActiveVotePlans),
}

/// What a command shows of each node.
#[derive(Clone, Copy, Debug, PartialEq, Eq, Structural)]
pub enum Subject {
    Status,
    FragmentCount,
    Fragments,
    BlockHeight,
    PeerStats,
    Stats,
    VotePlans,
    Logs,
}

/// Which lines of a log are wanted.
pub struct LogFilter {
    pub only_errors: bool,
    pub contains: Option<Seq<char>>,
    pub tail: Option<nat>,
}

/// The text of an optional string.
pub open spec fn text_of(s: Option<String>) -> Option<Seq<char>> {
    match s {
        Some(s) => Some(s@),
        None => None,
    }
}

/// Whether `pattern` occurs in `text` as a run of adjacent characters.
pub open spec fn is_substring(pattern: Seq<char>, text: Seq<char>) -> bool {
    exists|at: int|
        0 <= at && at + pattern.len() <= text.len() && #[trigger] text.subrange(
            at,
            at + pattern.len(),
        ) == pattern
}

/// Place of the first node among `nodes` that goes by `alias`.
pub open spec fn find_alias(nodes: Seq<Node>, alias: Seq<char>) -> Option<int>
    decreases nodes.len(),
{
    if nodes.len() == 0 {
        None
    } else {
        match find_alias(nodes.drop_last(), alias) {
            Some(at) => Some(at),
            None => if nodes.last().alias@ == alias {
                Some(nodes.len() - 1)
            } else {
                None
            },
        }
    }
}

/// A node that a command is about, and whether it is a legacy node.
pub struct Target {
    pub node: Node,
    pub legacy: bool,
}

/// The nodes that a command is about. Without an alias these are all nodes,
/// the legacy nodes last. With an alias it is the first node of that alias,
/// looked for among the legacy nodes only if no other node has it; `None`
/// says that no node has it.
pub open spec fn targets(alias: Option<Seq<char>>, nodes: Seq<Node>, legacy_nodes: Seq<Node>) -> Option<
    Seq<Target>,
> {
    match alias {
        Some(alias) => match find_alias(nodes, alias) {
            Some(at) => Some(seq![Target { node: nodes[at], legacy: false }]),
            None => match find_alias(legacy_nodes, alias) {
                Some(at) => Some(seq![Target { node: legacy_nodes[at], legacy: true }]),
                None => None,
            },
        },
        None => Some(
            nodes.map_values(|node: Node| Target { node, legacy: false })
                + legacy_nodes.map_values(|node: Node| Target { node, legacy: true }),
        ),
    }
}

/// Whether `filter` asks for `line` by what the line holds: an error where
/// errors are asked for; else a line that contains the text asked for; else
/// any line.
pub open spec fn wanted(filter: LogFilter, line: LogLine) -> bool {
    if filter.only_errors {
        line.is_error
    } else {
        match filter.contains {
            Some(pattern) => is_substring(pattern, line.text@),
            None => true,
        }
    }
}

/// The texts of the lines of `logs` that `filter` asks for by what they
/// hold, in their order.
pub open spec fn kept(filter: LogFilter, logs: Seq<LogLine>) -> Seq<Seq<char>>
    decreases logs.len(),
{
    if logs.len() == 0 {
        Seq::empty()
    } else if wanted(filter, logs.last()) {
        kept(filter, logs.drop_last()).push(logs.last().text@)
    } else {
        kept(filter, logs.drop_last())
    }
}

/// The texts of the `count` last lines of `logs`, the newest first; all
/// lines if there are no more than `count`.
pub open spec fn newest(logs: Seq<LogLine>, count: nat) -> Seq<Seq<char>> {
    Seq::new(
        if count < logs.len() {
            count
        } else {
            logs.len()
        },
        |k: int| logs[logs.len() - 1 - k].text@,
    )
}

/// The lines of `logs` that `filter` asks for. Asking for errors goes before
/// asking for a text, and that before asking for the newest lines.
pub open spec fn selected_logs(filter: LogFilter, logs: Seq<LogLine>) -> Seq<Seq<char>> {
    if !filter.only_errors && filter.contains is None && filter.tail is Some {
        newest(logs, filter.tail->0)
    } else {
        kept(filter, logs)
    }
}

/// The filter that the options of a command ask for.
pub open spec fn filter_of(only_errors: bool, contains: Option<String>, tail: Option<usize>) -> LogFilter {
    LogFilter {
        only_errors,
        contains: text_of(contains),
        tail: match tail {
            Some(count) => Some(count as nat),
            None => None,
        },
    }
}

/// A line that says that something is up.
pub open spec fn is_up(alias: Seq<char>) -> Seq<char> {
    alias + " is up"@
}

/// A line that gives `text` under the name of a node.
pub open spec fn labelled(alias: Seq<char>, text: Seq<char>) -> Seq<char> {
    alias + ": "@ + text
}

/// What a `subject` command prints for one node.
pub open spec fn node_lines(subject: Subject, filter: LogFilter, target: Target) -> Seq<Seq<char>> {
    let node = target.node;
    match subject {
        Subject::Status | Subject::PeerStats => seq![is_up(node.alias@)],
        Subject::FragmentCount => seq![
            labelled(node.alias@, digits_of(node.fragment_count as nat)),
        ],
        Subject::Fragments => seq![
            labelled(
                node.alias@,
                if target.legacy {
                    digits_of(node.fragment_count as nat)
                } else {
                    node.fragments@
                },
            ),
        ],
        Subject::BlockHeight => seq![labelled(node.alias@, node.block_height@)],
        Subject::Stats => seq![labelled(node.alias@, node.stats@)],
        Subject::VotePlans => seq![labelled(node.alias@, node.vote_plans@)],
        Subject::Logs => seq![node.alias@ + ":"@] + selected_logs(
            filter,
            node.logs@,
        ).map_values(|line: Seq<char>| "\t"@ + line),
    }
}

/// What a `subject` command prints for `targets`, node after node.
pub open spec fn lines_for(subject: Subject, filter: LogFilter, targets: Seq<Target>) -> Seq<
    Seq<char>,
>
    decreases targets.len(),
{
    if targets.len() == 0 {
        Seq::empty()
    } else {
        lines_for(subject, filter, targets.drop_last()) + node_lines(subject, filter, targets.last())
    }
}

/// The lines that say that each of `aliases` is up.
pub open spec fn up_lines(aliases: Seq<String>) -> Seq<Seq<char>> {
    aliases.map_values(|alias: String| is_up(alias@))
}

/// What a `subject` command prints about the nodes of `controller`, or
/// `None` where it asks for a node that is not there.
pub open spec fn shown(
    subject: Subject,
    filter: LogFilter,
    alias: Option<Seq<char>>,
    controller: UserInteractionController,
) -> Option<Seq<Seq<char>>> {
    match targets(alias, controller.nodes@, controller.legacy_nodes@) {
        Some(targets) => Some(lines_for(subject, filter, targets)),
        None => None,
    }
}

/// No filter: all lines of a log.
pub open spec fn no_filter() -> LogFilter {
    LogFilter { only_errors: false, contains: None, tail: None }
}

/// `str::contains` of the standard library, for a pattern that is a text:
/// whether the pattern occurs in the text.
#[verifier::external_body]
fn text_contains(text: &str, pattern: &str) -> (found: bool)
    ensures
        found == is_substring(pattern@, text@),
{
    text.contains(pattern)
}

/// What is found among the first nodes is found among all of them.
proof fn lemma_found_early(nodes: Seq<Node>, alias: Seq<char>, upto: int)
    requires
        0 <= upto <= nodes.len(),
        find_alias(nodes.take(upto), alias) is Some,
    ensures
        find_alias(nodes, alias) == find_alias(nodes.take(upto), alias),
    decreases nodes.len() - upto,
{
    if upto == nodes.len() {
        assert(nodes.take(upto) =~= nodes);
    } else {
        assert(nodes.drop_last().take(upto) =~= nodes.take(upto));
        lemma_found_early(nodes.drop_last(), alias, upto);
    }
}

fn position_of(nodes: &Vec<Node>, alias: &String) -> (r: Option<usize>)
    ensures
        match r {
            Some(at) => at < nodes@.len() && find_alias(nodes@, alias@) == Some(at as int),
            None => find_alias(nodes@, alias@) is None,
        },
{
    let mut i: usize = 0;
    while i < nodes.len()
        invariant
            i <= nodes.len(),
            find_alias(nodes@.take(i as int), alias@) is None,
        decreases nodes.len() - i,
    {
        proof {
            assert(nodes@.take(i + 1).drop_last() =~= nodes@.take(i as int));
        }
        if nodes[i].alias == *alias {
            proof {
                lemma_found_early(nodes@, alias@, i + 1);
            }
            return Some(i);
        }
        i += 1;
    }
    proof {
        assert(nodes@.take(nodes@.len() as int) =~= nodes@);
    }
    None
}

fn select_logs(only_errors: bool, contains: &Option<String>, tail: Option<usize>, logs: &Vec<LogLine>) -> (r:
    Vec<String>)
    ensures
        texts(r@) == selected_logs(filter_of(only_errors, *contains, tail), logs@),
{
    let ghost filter = filter_of(only_errors, *contains, tail);
    let mut out: Vec<String> = Vec::new();
    if !only_errors && contains.is_none() && tail.is_some() {
        let count = tail.unwrap();
        let n = logs.len();
        let limit = if count < n {
            count
        } else {
            n
        };
        let mut k: usize = 0;
        while k < limit
            invariant
                k <= limit <= n,
                n == logs@.len(),
                out@.len() == k,
                forall|j: int| 0 <= j < k ==> (#[trigger] out@[j])@ == logs@[n - 1 - j].text@,
            decreases limit - k,
        {
            out.push(logs[n - 1 - k].text.clone());
            k += 1;
        }
        out
    } else {
        let mut i: usize = 0;
        while i < logs.len()
            invariant
                i <= logs.len(),
                filter == filter_of(only_errors, *contains, tail),
                texts(out@) == kept(filter, logs@.take(i as int)),
            decreases logs.len() - i,
        {
            let line = &logs[i];
            let keep = if only_errors {
                line.is_error
            } else {
                match contains {
                    Some(pattern) => text_contains(line.text.as_str(), pattern.as_str()),
                    None => true,
                }
            };
            proof {
                assert(logs@.take(i + 1).drop_last() =~= logs@.take(i as int));
            }
            if keep {
                out.push(line.text.clone());
            }
            i += 1;
        }
        proof {
            assert(logs@.take(logs@.len() as int) =~= logs@);
        }
        out
    }
}

/// The lines that show the log of the node `alias`: the alias, then every
/// line that is asked for, set in by a tab.
pub fn show_logs_for(
    only_errors: bool,
    contains: &Option<String>,
    alias: &str,
    tail: Option<usize>,
    logs: &Vec<LogLine>,
) -> (lines: Vec<String>)
    ensures
        texts(lines@) == seq![alias@ + ":"@] + selected_logs(
            filter_of(only_errors, *contains, tail),
            logs@,
        ).map_values(|line: Seq<char>| "\t"@ + line),
{
    let selected = select_logs(only_errors, contains, tail, logs);
    let mut lines: Vec<String> = Vec::new();
    lines.push(String::from_str(alias).concat(":"));
    let mut i: usize = 0;
    while i < selected.len()
        invariant
            i <= selected.len(),
            lines@.len() == i + 1,
            lines@[0]@ == alias@ + ":"@,
            forall|k: int| 0 <= k < i ==> (#[trigger] lines@[k + 1])@ == "\t"@ + selected@[k]@,
        decreases selected.len() - i,
    {
        lines.push(String::from_str("\t").concat(selected[i].as_str()));
        i += 1;
    }
    proof {
        let goal = seq![alias@ + ":"@] + texts(selected@).map_values(
            |line: Seq<char>| "\t"@ + line,
        );
        assert forall|k: int| 0 <= k < lines@.len() implies texts(lines@)[k] == goal[k] by {
            if k > 0 {
                assert(lines@[(k - 1) + 1]@ == "\t"@ + selected@[k - 1]@);
            }
        }
    }
    lines
}

fn labelled_line(alias: &String, text: &str) -> (line: String)
    ensures
        line@ == labelled(alias@, text@),
{
    alias.clone().concat(": ").concat(text)
}

fn node_report(
    subject: Subject,
    only_errors: bool,
    contains: &Option<String>,
    tail: Option<usize>,
    node: &Node,
    legacy: bool,
) -> (lines: Vec<String>)
    ensures
        texts(lines@) == node_lines(
            subject,
            filter_of(only_errors, *contains, tail),
            Target { node: *node, legacy },
        ),
{
    let mut lines: Vec<String> = Vec::new();
    match subject {
        Subject::Status | Subject::PeerStats => {
            lines.push(node.alias.clone().concat(" is up"));
        },
        Subject::FragmentCount => {
            let count = to_decimal(node.fragment_count as u64);
            lines.push(labelled_line(&node.alias, count.as_str()));
        },
        Subject::Fragments => {
            if legacy {
                let count = to_decimal(node.fragment_count as u64);
                lines.push(labelled_line(&node.alias, count.as_str()));
            } else {
                lines.push(labelled_line(&node.alias, node.fragments.as_str()));
            }
        },
        Subject::BlockHeight => {
            lines.push(labelled_line(&node.alias, node.block_height.as_str()));
        },
        Subject::Stats => {
            lines.push(labelled_line(&node.alias, node.stats.as_str()));
        },
        Subject::VotePlans => {
            lines.push(labelled_line(&node.alias, node.vote_plans.as_str()));
        },
        Subject::Logs => {
            return show_logs_for(only_errors, contains, node.alias.as_str(), tail, &node.logs);
        },
    }
    lines
}

/// The nodes of `nodes` as targets of a command.
pub open spec fn as_targets(nodes: Seq<Node>, legacy: bool) -> Seq<Target> {
    nodes.map_values(|node: Node| Target { node, legacy })
}

fn report_all(
    subject: Subject,
    only_errors: bool,
    contains: &Option<String>,
    tail: Option<usize>,
    nodes: &Vec<Node>,
    legacy: bool,
    lines: &mut Vec<String>,
    Ghost(earlier): Ghost<Seq<Target>>,
)
    requires
        texts(old(lines)@) == lines_for(subject, filter_of(only_errors, *contains, tail), earlier),
    ensures
        texts(final(lines)@) == lines_for(
            subject,
            filter_of(only_errors, *contains, tail),
            earlier + as_targets(nodes@, legacy),
        ),
{
    let ghost filter = filter_of(only_errors, *contains, tail);
    let mut i: usize = 0;
    while i < nodes.len()
        invariant
            i <= nodes.len(),
            filter == filter_of(only_errors, *contains, tail),
            texts(lines@) == lines_for(
                subject,
                filter,
                earlier + as_targets(nodes@.take(i as int), legacy),
            ),
        decreases nodes.len() - i,
    {
        let mut more = node_report(subject, only_errors, contains, tail, &nodes[i], legacy);
        lines.append(&mut more);
        proof {
            let sofar = earlier + as_targets(nodes@.take(i as int), legacy);
            let next = earlier + as_targets(nodes@.take(i + 1), legacy);
            assert(next.drop_last() =~= sofar);
        }
        i += 1;
    }
    proof {
        assert(nodes@.take(nodes@.len() as int) =~= nodes@);
    }
}

/// Runs a command over the nodes it is about: over all nodes, the legacy
/// nodes last, where no alias is given; else over the node of that alias,
/// which is an error where there is none.
pub fn do_for_all_alias(
    subject: Subject,
    only_errors: bool,
    contains: &Option<String>,
    tail: Option<usize>,
    alias: &Option<String>,
    nodes: &Vec<Node>,
    legacy_nodes: &Vec<Node>,
) -> (r: Result<Vec<String>, ShowError>)
    ensures
        match targets(text_of(*alias), nodes@, legacy_nodes@) {
            Some(targets) => r is Ok && texts(r->Ok_0@) == lines_for(
                subject,
                filter_of(only_errors, *contains, tail),
                targets,
            ),
            None => r matches Err(ShowError::NodeNotFound(missing)) && Some(missing@) == text_of(
                *alias,
            ),
        },
{
    let ghost filter = filter_of(only_errors, *contains, tail);
    match alias {
        Some(alias) => {
            match position_of(nodes, alias) {
                Some(at) => {
                    let lines = node_report(subject, only_errors, contains, tail, &nodes[at], false);
                    proof {
                        let one = seq![Target { node: nodes@[at as int], legacy: false }];
                        assert(lines_for(subject, filter, one.drop_last()) =~= Seq::<
                            Seq<char>,
                        >::empty());
                    }
                    Ok(lines)
                },
                None => match position_of(legacy_nodes, alias) {
                    Some(at) => {
                        let lines = node_report(
                            subject,
                            only_errors,
                            contains,
                            tail,
                            &legacy_nodes[at],
                            true,
                        );
                        proof {
                            let one = seq![Target { node: legacy_nodes@[at as int], legacy: true }];
                            assert(lines_for(subject, filter, one.drop_last()) =~= Seq::<
                                Seq<char>,
                            >::empty());
                        }
                        Ok(lines)
                    },
                    None => Err(ShowError::NodeNotFound(alias.clone())),
                },
            }
        },
        None => {
            let mut lines: Vec<String> = Vec::new();
            assert(texts(lines@) =~= lines_for(subject, filter, Seq::<Target>::empty()));
            report_all(
                subject,
                only_errors,
                contains,
                tail,
                nodes,
                false,
                &mut lines,
                Ghost(Seq::empty()),
            );
            report_all(
                subject,
                only_errors,
                contains,
                tail,
                legacy_nodes,
                true,
                &mut lines,
                Ghost(as_targets(nodes@, false)),
            );
            Ok(lines)
        },
    }
}

fn plain(subject: Subject, alias: &Option<String>, controller: &UserInteractionController) -> (r:
    Result<Vec<String>, ShowError>)
    ensures
        reports(r, shown(subject, no_filter(), text_of(*alias), *controller), text_of(*alias)),
{
    do_for_all_alias(
        subject,
        false,
        &None,
        None,
        alias,
        &controller.nodes,
        &controller.legacy_nodes,
    )
}

/// Whether `r` is what a command returns that shows `lines`, or, where
/// `lines` is `None`, finds no node of the alias it was given.
pub open spec fn reports(
    r: Result<Vec<String>, ShowError>,
    lines: Option<Seq<Seq<char>>>,
    alias: Option<Seq<char>>,
) -> bool {
    match lines {
        Some(lines) => r is Ok && texts(r->Ok_0@) == lines,
        None => r matches Err(ShowError::NodeNotFound(missing)) && Some(missing@) == alias,
    }
}

impl ActiveVotePlans {
    /// The active vote plans of the nodes, a line for each node.
    pub fn exec(&self, controller: &UserInteractionController) -> (r: Result<Vec<String>, ShowError>)
        ensures
            reports(
                r,
                shown(Subject::VotePlans, no_filter(), text_of(self.alias), *controller),
                text_of(self.alias),
            ),
    {
        plain(Subject::VotePlans, &self.alias, controller)
    }
}

impl ShowStatus {
    /// What the command prints: a line for each node that is up, then one
    /// for each voting station and one for each wallet proxy.
    pub open spec fn lines(self, controller: UserInteractionController) -> Option<Seq<Seq<char>>> {
        match shown(Subject::Status, no_filter(), text_of(self.alias), controller) {
            Some(nodes) => Some(
                nodes + up_lines(controller.vit_stations@) + up_lines(controller.proxies@),
            ),
            None => None,
        }
    }

    /// Which nodes, voting stations and wallet proxies are up.
    pub fn exec(&self, controller: &UserInteractionController) -> (r: Result<Vec<String>, ShowError>)
        ensures
            reports(r, self.lines(*controller), text_of(self.alias)),
    {
        let mut lines = match plain(Subject::Status, &self.alias, controller) {
            Ok(lines) => lines,
            Err(e) => {
                return Err(e);
            },
        };
        let ghost nodes = texts(lines@);
        let mut i: usize = 0;
        while i < controller.vit_stations.len()
            invariant
                i <= controller.vit_stations.len(),
                texts(lines@) == nodes + up_lines(controller.vit_stations@.take(i as int)),
            decreases controller.vit_stations.len() - i,
        {
            let ghost before = lines@;
            lines.push(controller.vit_stations[i].clone().concat(" is up"));
            assert(texts(lines@) =~= texts(before).push(is_up(controller.vit_stations@[i as int]@)));
            i += 1;
        }
        assert(controller.vit_stations@.take(controller.vit_stations@.len() as int)
            =~= controller.vit_stations@);
        let ghost stations = texts(lines@);
        let mut j: usize = 0;
        while j < controller.proxies.len()
            invariant
                j <= controller.proxies.len(),
                texts(lines@) == stations + up_lines(controller.proxies@.take(j as int)),
            decreases controller.proxies.len() - j,
        {
            let ghost before = lines@;
            lines.push(controller.proxies[j].clone().concat(" is up"));
            assert(texts(lines@) =~= texts(before).push(is_up(controller.proxies@[j as int]@)));
            j += 1;
        }
        assert(controller.proxies@.take(controller.proxies@.len() as int) =~= controller.proxies@);
        Ok(lines)
    }
}

impl ShowFragmentCount {
    /// The number of fragments that each node has logged.
    pub fn exec(&self, controller: &UserInteractionController) -> (r: Result<Vec<String>, ShowError>)
        ensures
            reports(
                r,
                shown(Subject::FragmentCount, no_filter(), text_of(self.alias), *controller),
                text_of(self.alias),
            ),
    {
        plain(Subject::FragmentCount, &self.alias, controller)
    }
}

impl ShowFragments {
    /// The fragments that each node has logged; of a legacy node, their
    /// number.
    pub fn exec(&self, controller: &UserInteractionController) -> (r: Result<Vec<String>, ShowError>)
        ensures
            reports(
                r,
                shown(Subject::Fragments, no_filter(), text_of(self.alias), *controller),
                text_of(self.alias),
            ),
    {
        plain(Subject::Fragments, &self.alias, controller)
    }
}

impl ShowBlockHeight {
    /// The height of the last block of each node.
    pub fn exec(&self, controller: &UserInteractionController) -> (r: Result<Vec<String>, ShowError>)
        ensures
            reports(
                r,
                shown(Subject::BlockHeight, no_filter(), text_of(self.alias), *controller),
                text_of(self.alias),
            ),
    {
        plain(Subject::BlockHeight, &self.alias, controller)
    }
}

impl ShowPeerStats {
    /// A line for each node that is up.
    pub fn exec(&self, controller: &UserInteractionController) -> (r: Result<Vec<String>, ShowError>)
        ensures
            reports(
                r,
                shown(Subject::PeerStats, no_filter(), text_of(self.alias), *controller),
                text_of(self.alias),
            ),
    {
        plain(Subject::PeerStats, &self.alias, controller)
    }
}

impl ShowNodeStats {
    /// The statistics of each node.
    pub fn exec(&self, controller: &UserInteractionController) -> (r: Result<Vec<String>, ShowError>)
        ensures
            reports(
                r,
                shown(Subject::Stats, no_filter(), text_of(self.alias), *controller),
                text_of(self.alias),
            ),
    {
        plain(Subject::Stats, &self.alias, controller)
    }
}

impl ShowLogs {
    /// What the command prints: for each node its alias and, set in, the
    /// lines of its log that the options ask for.
    pub open spec fn lines(self, controller: UserInteractionController) -> Option<Seq<Seq<char>>> {
        shown(
            Subject::Logs,
            filter_of(self.only_errors, self.contains, self.tail),
            text_of(self.alias),
            controller,
        )
    }

    /// The logs of the nodes.
    pub fn exec(&self, controller: &UserInteractionController) -> (r: Result<Vec<String>, ShowError>)
        ensures
            reports(r, self.lines(*controller), text_of(self.alias)),
    {
        do_for_all_alias(
            Subject::Logs,
            self.only_errors,
            &self.contains,
            self.tail,
            &self.alias,
            &controller.nodes,
            &controller.legacy_nodes,
        )
    }
}

impl Show {
    /// What the command prints, or `None` where it asks for a node that is
    /// not there.
    pub open spec fn lines(self, controller: UserInteractionController) -> Option<Seq<Seq<char>>> {
        match self {
            Show::Status(status) => status.lines(controller),
            Show::Stats(stats) => shown(
                Subject::Stats,
                no_filter(),
                text_of(stats.alias),
                controller,
            ),
            Show::FragmentCount(count) => shown(
                Subject::FragmentCount,
                no_filter(),
                text_of(count.alias),
                controller,
            ),
            Show::Fragments(fragments) => shown(
                Subject::Fragments,
                no_filter(),
                text_of(fragments.alias),
                controller,
            ),
            Show::BlockHeight(height) => shown(
                Subject::BlockHeight,
                no_filter(),
                text_of(height.alias),
                controller,
            ),
            Show::PeerStats(peers) => shown(
                Subject::PeerStats,
                no_filter(),
                text_of(peers.alias),
                controller,
            ),
            Show::Logs(logs) => logs.lines(controller),
            Show::VotePlans(plans) => shown(
                Subject::VotePlans,
                no_filter(),
                text_of(plans.alias),
                controller,
            ),
        }
    }

    /// The alias that the command was given, if any.
    pub open spec fn alias(self) -> Option<Seq<char>> {
        match self {
            Show::Status(c) => text_of(c.alias),
            Show::Stats(c) => text_of(c.alias),
            Show::FragmentCount(c) => text_of(c.alias),
            Show::Fragments(c) => text_of(c.alias),
            Show::BlockHeight(c) => text_of(c.alias),
            Show::PeerStats(c) => text_of(c.alias),
            Show::Logs(c) => text_of(c.alias),
            Show::VotePlans(c) => text_of(c.alias),
        }
    }

    /// Runs the command: the lines to print.
    pub fn exec(&self, controller: &UserInteractionController) -> (r: Result<Vec<String>, ShowError>)
        ensures
            reports(r, self.lines(*controller), self.alias()),
    {
        match self {
            Show::Status(status) => status.exec(controller),
            Show::Stats(stats) => stats.exec(controller),
            Show::FragmentCount(fragment_counts) => fragment_counts.exec(controller),
            Show::Fragments(fragments) => fragments.exec(controller),
            Show::BlockHeight(block_height) => block_height.exec(controller),
            Show::PeerStats(peer_stats) => peer_stats.exec(controller),
            Show::Logs(logs) => logs.exec(controller),
            Show::VotePlans(active_vote_plan) => active_vote_plan.exec(controller),
        }
    }
}

} // verus!
