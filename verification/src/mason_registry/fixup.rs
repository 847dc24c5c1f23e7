//! Normalising the package definitions of a registry: the canonical file
//! extension, a blank line before each section, and the document separator.

use crate::path::{
    file_name, file_name_of, has_yml_name, is_yml, join, join_path, parent, parent_of,
    rename_to_yaml, renamed_to_yaml, to_yaml_name, yaml_name,
};
use crate::script::{
    fatal_stage, operation_views, optional_stage, push_runs, runs, stage_views, Operation,
    OperationView, Stage, StageView,
};
use crate::spawn::ProcessRequest;
use crate::status::Status;
use crate::text::{contains_text, str_eq, str_views, string_views};
use crate::workspace::{changed_files, changed_paths, git, Workspace};
use vstd::prelude::*;
use vstd::string::*;

verus! {

broadcast use vstd::string::group_string_axioms;

/// The keys that open a section of a package definition.
pub open spec fn is_section_key(line: Seq<char>) -> bool {
    line == "source:"@ || line == "bin:"@ || line == "share:"@ || line == "opt:"@
}

/// The first `n` lines of `lines`, each followed by a blank line where the
/// next line opens a section and the line itself is not blank.
pub open spec fn spaced_prefix(lines: Seq<Seq<char>>, n: int) -> Seq<Seq<char>>
    decreases n,
{
    if n <= 0 {
        Seq::empty()
    } else {
        let before = spaced_prefix(lines, n - 1).push(lines[n - 1]);
        if is_section_key(lines[n]) && lines[n - 1].len() != 0 {
            before.push(Seq::empty())
        } else {
            before
        }
    }
}

/// `lines` with a blank line before each section key that follows a line
/// that is not blank. A text of fewer than two lines has no such pair of
/// lines and stays as it is.
pub open spec fn spaced(lines: Seq<Seq<char>>) -> Seq<Seq<char>> {
    if lines.len() < 2 {
        lines
    } else {
        spaced_prefix(lines, lines.len() - 1).push(lines.last())
    }
}

/// `lines`, led by the document separator `---` if it did not start with it.
pub open spec fn with_document_separator(lines: Seq<Seq<char>>) -> Seq<Seq<char>> {
    if lines.len() > 0 && lines[0] == "---"@ {
        lines
    } else {
        seq!["---"@] + lines
    }
}

/// The styled form of a package definition: the document separator leads
/// it, and a blank line stands before each section key that would follow a
/// line that is not blank, the separator too. No line is lost.
pub open spec fn styled(lines: Seq<Seq<char>>) -> Seq<Seq<char>> {
    spaced(with_document_separator(lines))
}

/// A text on which styling has nothing left to do: it starts with the
/// document separator and each section key after it follows a blank line.
pub open spec fn is_styled(lines: Seq<Seq<char>>) -> bool {
    &&& lines.len() >= 1
    &&& lines[0] == "---"@
    &&& forall|i: int|
        1 <= i < lines.len() && is_section_key(#[trigger] lines[i]) ==> lines[i - 1].len() == 0
}

pub fn is_section_key_line(line: &str) -> (b: bool)
    ensures
        b == is_section_key(line@),
{
    str_eq(line, "source:") || str_eq(line, "bin:") || str_eq(line, "share:") || str_eq(
        line,
        "opt:",
    )
}

/// `lines`, with the document separator in front where they do not start
/// with it.
fn lead_with_separator<'a>(lines: &'a Vec<String>) -> (led: Vec<&'a str>)
    ensures
        str_views(led@) == with_document_separator(string_views(lines@)),
{
    let ghost text = string_views(lines@);
    let mut led: Vec<&'a str> = Vec::new();
    let ghost mut lead: Seq<Seq<char>> = Seq::empty();
    if !(lines.len() > 0 && str_eq(lines[0].as_str(), "---")) {
        led.push("---");
        proof {
            lead = seq!["---"@];
        }
    }
    assert(str_views(led@) == lead + text.take(0));
    let mut i: usize = 0;
    while i < lines.len()
        invariant
            i <= lines.len(),
            text == string_views(lines@),
            str_views(led@) == lead + text.take(i as int),
        decreases lines.len() - i,
    {
        let ghost before = led@;
        led.push(lines[i].as_str());
        proof {
            assert(str_views(led@) == str_views(before).push(text[i as int]));
            assert(text.take(i + 1) == text.take(i as int).push(text[i as int]));
        }
        i += 1;
    }
    proof {
        assert(text.take(lines.len() as int) == text);
        assert(Seq::<Seq<char>>::empty() + text == text);
    }
    led
}

/// Styles the lines of a package definition: the document separator leads
/// the result, and a blank line goes before each section key that follows a
/// line that is not blank. Every line of the definition is kept.
pub fn apply_styling_fixes<'a>(lines: &'a Vec<String>) -> (fixed: Vec<&'a str>)
    ensures
        str_views(fixed@) == styled(string_views(lines@)),
{
    let led = lead_with_separator(lines);
    if led.len() < 2 {
        return led;
    }
    let ghost text = str_views(led@);
    let mut fixed: Vec<&'a str> = Vec::new();
    let mut i: usize = 0;
    while i + 1 < led.len()
        invariant
            i + 1 <= led.len(),
            text == str_views(led@),
            str_views(fixed@) == spaced_prefix(text, i as int),
        decreases led.len() - i,
    {
        let line1 = led[i];
        let line2 = led[i + 1];
        let ghost before = fixed@;
        fixed.push(line1);
        assert(str_views(fixed@) == str_views(before).push(line1@));
        if is_section_key_line(line2) && !line1.is_empty() {
            let ghost with_line = fixed@;
            fixed.push("");
            proof {
                reveal_strlit("");
                assert(""@ == Seq::<char>::empty());
                assert(str_views(fixed@) == str_views(with_line).push(Seq::empty()));
            }
        }
        i += 1;
    }
    let ghost before = fixed@;
    let last = led[led.len() - 1];
    fixed.push(last);
    assert(str_views(fixed@) == str_views(before).push(last@));
    assert(text.last() == last@);
    fixed
}

/// The file's new content: each line followed by a line feed.
pub open spec fn rendered(lines: Seq<Seq<char>>) -> Seq<char>
    decreases lines.len(),
{
    if lines.len() == 0 {
        Seq::empty()
    } else {
        rendered(lines.drop_last()) + lines.last() + seq!['\n']
    }
}

/// The text of a file that holds `lines`, each ended by a line feed.
pub fn render(lines: &Vec<&str>) -> (content: String)
    ensures
        content@ == rendered(str_views(lines@)),
{
    let mut content = String::new();
    let mut i: usize = 0;
    while i < lines.len()
        invariant
            i <= lines.len(),
            content@ == rendered(str_views(lines@).take(i as int)),
        decreases lines.len() - i,
    {
        content.append(lines[i]);
        content.append("\n");
        proof {
            reveal_strlit("\n");
            assert("\n"@ == seq!['\n']);
            let next = str_views(lines@).take(i + 1);
            assert(next.drop_last() == str_views(lines@).take(i as int));
            assert(next.last() == lines@[i as int]@);
        }
        i += 1;
    }
    assert(str_views(lines@).take(lines.len() as int) == str_views(lines@));
    content
}

/// Neither the blank line nor the document separator opens a section.
pub proof fn lemma_plain_lines_are_no_keys()
    ensures
        !is_section_key(Seq::empty()),
        !is_section_key("---"@),
        "---"@.len() == 3,
{
    reveal_strlit("source:");
    reveal_strlit("bin:");
    reveal_strlit("share:");
    reveal_strlit("opt:");
    reveal_strlit("---");
    assert("source:"@.len() == 7);
    assert("bin:"@.len() == 4);
    assert("share:"@.len() == 6);
    assert("opt:"@.len() == 4);
    assert("---"@.len() == 3);
}

/// In the spaced prefix each section key after the first line follows a
/// blank line, and so will a section key that comes next.
proof fn lemma_spaced_prefix(lines: Seq<Seq<char>>, n: int)
    requires
        0 <= n < lines.len(),
    ensures
        spaced_prefix(lines, n).len() >= n,
        n >= 1 ==> spaced_prefix(lines, n)[0] == lines[0],
        forall|i: int|
            1 <= i < spaced_prefix(lines, n).len() && is_section_key(
                #[trigger] spaced_prefix(lines, n)[i],
            ) ==> spaced_prefix(lines, n)[i - 1].len() == 0,
        n >= 1 && is_section_key(lines[n]) ==> spaced_prefix(lines, n).last().len() == 0,
    decreases n,
{
    lemma_plain_lines_are_no_keys();
    if n > 0 {
        lemma_spaced_prefix(lines, n - 1);
        let prev = spaced_prefix(lines, n - 1);
        let before = prev.push(lines[n - 1]);
        let cur = spaced_prefix(lines, n);
        assert forall|i: int| 1 <= i < cur.len() && is_section_key(#[trigger] cur[i]) implies cur[i
            - 1].len() == 0 by {
            if i < prev.len() {
                assert(cur[i] == prev[i]);
                assert(cur[i - 1] == prev[i - 1]);
            } else if i == prev.len() {
                assert(cur[i] == lines[n - 1]);
                assert(cur[i - 1] == prev.last());
            } else {
                assert(cur[i] == Seq::<char>::empty());
            }
        }
    }
}

/// Styling leaves a text on which nothing is left to do.
pub proof fn lemma_styled_is_styled(lines: Seq<Seq<char>>)
    ensures
        is_styled(styled(lines)),
{
    lemma_plain_lines_are_no_keys();
    let led = with_document_separator(lines);
    assert(led.len() >= 1 && led[0] == "---"@);
    if led.len() >= 2 {
        let n = led.len() - 1;
        lemma_spaced_prefix(led, n);
        let prefix = spaced_prefix(led, n);
        let out = styled(lines);
        assert(out[0] == led[0]);
        assert forall|i: int| 1 <= i < out.len() && is_section_key(#[trigger] out[i]) implies out[i
            - 1].len() == 0 by {
            if i < prefix.len() {
                assert(out[i] == prefix[i]);
                assert(out[i - 1] == prefix[i - 1]);
            } else {
                assert(out[i] == led[n]);
                assert(out[i - 1] == prefix.last());
            }
        }
    }
}

/// Where nothing is left to do, no blank line is added.
proof fn lemma_spaced_prefix_of_styled(lines: Seq<Seq<char>>, n: int)
    requires
        is_styled(lines),
        0 <= n < lines.len(),
    ensures
        spaced_prefix(lines, n) == lines.take(n),
    decreases n,
{
    if n > 0 {
        lemma_spaced_prefix_of_styled(lines, n - 1);
        assert(lines.take(n - 1).push(lines[n - 1]) == lines.take(n));
    }
}

/// Styling changes nothing in a text on which nothing is left to do.
pub proof fn lemma_styled_is_fixed_point(lines: Seq<Seq<char>>)
    requires
        is_styled(lines),
    ensures
        styled(lines) == lines,
{
    if lines.len() >= 2 {
        let n = lines.len() - 1;
        lemma_spaced_prefix_of_styled(lines, n);
        assert(lines.take(n).push(lines.last()) == lines);
    }
}

/// Styling twice gives what styling once gives.
pub proof fn styling_is_idempotent(lines: Seq<Seq<char>>)
    ensures
        styled(styled(lines)) == styled(lines),
{
    lemma_styled_is_styled(lines);
    lemma_styled_is_fixed_point(styled(lines));
}

/// A text of no line becomes the separator alone; a text of one line that
/// opens no section keeps that line, after the separator if it is not the
/// separator itself. No styled text is shorter than the text it is made of,
/// and it ends as that text ends.
pub proof fn styling_of_short_texts(lines: Seq<Seq<char>>)
    ensures
        styled(lines).len() >= lines.len(),
        lines.len() > 0 ==> styled(lines).last() == lines.last(),
        lines.len() == 0 ==> styled(lines) == seq!["---"@],
        lines.len() == 1 && !is_section_key(lines[0]) ==> styled(lines)
            == with_document_separator(lines),
{
    let led = with_document_separator(lines);
    if led.len() >= 2 {
        lemma_spaced_prefix(led, led.len() - 1);
    }
    if lines.len() == 0 {
        assert(led == seq!["---"@]);
    }
    if lines.len() == 1 && !is_section_key(lines[0]) && led.len() == 2 {
        assert(spaced_prefix(led, 1) == seq![led[0]]) by {
            reveal_with_fuel(spaced_prefix, 2);
        }
        assert(seq![led[0]].push(led[1]) == led);
    }
}

/// The directory that holds the package definitions.
pub open spec fn packages_dir(workspace: &Workspace) -> Seq<char> {
    join(workspace.workdir@, "packages"@)
}

pub fn packages_dir_of(workspace: &Workspace) -> (dir: String)
    ensures
        dir@ == packages_dir(workspace),
{
    join_path(workspace.workdir.as_str(), "packages")
}

/// `paths`, each seen from `dir`.
pub open spec fn seen_from(dir: Seq<char>, paths: Seq<Seq<char>>) -> Seq<Seq<char>> {
    Seq::new(paths.len(), |i: int| join(dir, paths[i]))
}

/// The message of the commit that moves the file at `entry`, a path below
/// the packages directory.
pub open spec fn move_message(entry: Seq<char>) -> Seq<char> {
    "fix("@ + parent(entry) + "): move "@ + file_name(entry) + " to "@ + yaml_name(
        file_name(entry),
    )
}

/// The message of the commit that styles the file at `entry`, a path below
/// the packages directory.
pub open spec fn style_message(entry: Seq<char>) -> Seq<char> {
    "style("@ + parent(entry) + "): fix formatting"@
}

/// What is done with a changed file whose name ends with `.yml`: it is
/// moved to the same name with the extension `yaml`, and the move is
/// committed on its own. All of it must succeed.
pub open spec fn relocation(workspace: &Workspace, entry: Seq<char>) -> StageView {
    let from = join(packages_dir(workspace), entry);
    let to = join(packages_dir(workspace), renamed_to_yaml(entry));
    StageView {
        operations: seq![
            OperationView::Rename { from, to },
            OperationView::Run(git(workspace.workdir@, seq!["add"@, from, to])),
        ] + runs(workspace.spec_commit(move_message(entry))),
        fatal: true,
    }
}

/// The relocations of `entries`, paths below the packages directory, in
/// their order: one for each that is among the changed files and has a
/// name that ends with `.yml`.
pub open spec fn relocations(
    workspace: &Workspace,
    changed: Seq<Seq<char>>,
    entries: Seq<Seq<char>>,
) -> Seq<StageView>
    decreases entries.len(),
{
    if entries.len() == 0 {
        Seq::empty()
    } else {
        let before = relocations(workspace, changed, entries.drop_last());
        let entry = entries.last();
        if changed.contains(join(packages_dir(workspace), entry)) && is_yml(entry) {
            before.push(relocation(workspace, entry))
        } else {
            before
        }
    }
}

fn relocate(workspace: &Workspace, packages: &str, entry: &str) -> (stage: Stage)
    requires
        packages@ == packages_dir(workspace),
        is_yml(entry@),
    ensures
        stage@ == relocation(workspace, entry@),
{
    let from = join_path(packages, entry);
    let renamed = rename_to_yaml(entry);
    let to = join_path(packages, renamed.as_str());
    let name = file_name_of(entry);
    proof {
        crate::path::lemma_yml_name(entry@);
    }
    let new_name = to_yaml_name(name.as_str());
    let mut message = "fix(".to_owned();
    message.append(parent_of(entry).as_str());
    message.append("): move ");
    message.append(name.as_str());
    message.append(" to ");
    message.append(new_name.as_str());
    let add = vec!["add", from.as_str(), to.as_str()];
    let adding = workspace.spawn("git", add.as_slice());
    proof {
        assert(str_views(add@) =~= seq!["add"@, from@, to@]);
    }
    let commit = workspace.commit(message.as_str());
    let mut operations: Vec<Operation> = Vec::new();
    operations.push(Operation::Rename { from, to });
    operations.push(Operation::Run(adding));
    proof {
        assert(operation_views(operations@) =~= seq![
            OperationView::Rename {
                from: join(packages_dir(workspace), entry@),
                to: join(packages_dir(workspace), renamed_to_yaml(entry@)),
            },
            OperationView::Run(
                git(
                    workspace.workdir@,
                    seq![
                        "add"@,
                        join(packages_dir(workspace), entry@),
                        join(packages_dir(workspace), renamed_to_yaml(entry@)),
                    ],
                ),
            ),
        ]);
    }
    push_runs(&mut operations, commit);
    Stage { operations, fatal: true }
}

/// The steps that give each changed package definition with the old
/// extension the new one. `entries` are the files found below the packages
/// directory, each by its path from there.
pub fn yml_to_yaml(workspace: &Workspace, changed_files: &Vec<String>, entries: &Vec<String>) -> (script:
    Vec<Stage>)
    ensures
        stage_views(script@) == relocations(
            workspace,
            string_views(changed_files@),
            string_views(entries@),
        ),
{
    let packages = packages_dir_of(workspace);
    let mut script: Vec<Stage> = Vec::new();
    let mut i: usize = 0;
    while i < entries.len()
        invariant
            i <= entries.len(),
            packages@ == packages_dir(workspace),
            stage_views(script@) == relocations(
                workspace,
                string_views(changed_files@),
                string_views(entries@).take(i as int),
            ),
        decreases entries.len() - i,
    {
        let entry = entries[i].as_str();
        proof {
            let next = string_views(entries@).take(i + 1);
            assert(next.drop_last() == string_views(entries@).take(i as int));
            assert(next.last() == entry@);
        }
        let from = join_path(packages.as_str(), entry);
        if contains_text(changed_files, from.as_str()) && has_yml_name(entry) {
            let ghost before = script@;
            script.push(relocate(workspace, packages.as_str(), entry));
            assert(stage_views(script@) =~= stage_views(before).push(
                relocation(workspace, entry@),
            ));
        }
        i += 1;
    }
    assert(string_views(entries@).take(entries.len() as int) == string_views(entries@));
    script
}

/// What is done with a changed file: it is styled and staged, which must
/// succeed, and then committed on its own, which may fail where the file
/// was in style already.
pub open spec fn restyling(workspace: &Workspace, entry: Seq<char>) -> Seq<StageView> {
    let path = join(packages_dir(workspace), entry);
    seq![
        StageView {
            operations: seq![
                OperationView::Restyle { path },
                OperationView::Run(git(workspace.workdir@, seq!["add"@, path])),
            ],
            fatal: true,
        },
        optional_stage(workspace.spec_commit(style_message(entry))),
    ]
}

/// The restylings of `entries`, paths below the packages directory, in
/// their order: one for each that is among the changed files.
pub open spec fn restylings(
    workspace: &Workspace,
    changed: Seq<Seq<char>>,
    entries: Seq<Seq<char>>,
) -> Seq<StageView>
    decreases entries.len(),
{
    if entries.len() == 0 {
        Seq::empty()
    } else {
        let before = restylings(workspace, changed, entries.drop_last());
        let entry = entries.last();
        if changed.contains(join(packages_dir(workspace), entry)) {
            before + restyling(workspace, entry)
        } else {
            before
        }
    }
}

/// The steps that style each changed package definition. `entries` are the
/// regular files found below the packages directory, each by its path from
/// there.
pub fn fix_styling(workspace: &Workspace, changed_files: &Vec<String>, entries: &Vec<String>) -> (script:
    Vec<Stage>)
    ensures
        stage_views(script@) == restylings(
            workspace,
            string_views(changed_files@),
            string_views(entries@),
        ),
{
    let packages = packages_dir_of(workspace);
    let mut script: Vec<Stage> = Vec::new();
    let mut i: usize = 0;
    while i < entries.len()
        invariant
            i <= entries.len(),
            packages@ == packages_dir(workspace),
            stage_views(script@) == restylings(
                workspace,
                string_views(changed_files@),
                string_views(entries@).take(i as int),
            ),
        decreases entries.len() - i,
    {
        let entry = entries[i].as_str();
        proof {
            let next = string_views(entries@).take(i + 1);
            assert(next.drop_last() == string_views(entries@).take(i as int));
            assert(next.last() == entry@);
        }
        let path = join_path(packages.as_str(), entry);
        if contains_text(changed_files, path.as_str()) {
            let ghost before = script@;
            let add = vec!["add", path.as_str()];
            let adding = workspace.spawn("git", add.as_slice());
            proof {
                assert(str_views(add@) =~= seq!["add"@, path@]);
            }
            let mut message = "style(".to_owned();
            message.append(parent_of(entry).as_str());
            message.append("): fix formatting");
            let commit = workspace.commit(message.as_str());
            let mut operations: Vec<Operation> = Vec::new();
            operations.push(Operation::Restyle { path });
            operations.push(Operation::Run(adding));
            let styling = Stage { operations, fatal: true };
            proof {
                assert(styling@.operations =~= seq![
                    OperationView::Restyle { path: join(packages_dir(workspace), entry@) },
                    OperationView::Run(
                        git(
                            workspace.workdir@,
                            seq!["add"@, join(packages_dir(workspace), entry@)],
                        ),
                    ),
                ]);
            }
            script.push(styling);
            script.push(Stage::of(commit, false));
            assert(stage_views(script@) =~= stage_views(before) + restyling(workspace, entry@));
        }
        i += 1;
    }
    assert(string_views(entries@).take(entries.len() as int) == string_views(entries@));
    script
}

/// The changed files, each by its path seen from the workspace.
pub fn changed_in(workspace: &Workspace, listing: &Vec<u8>) -> (paths: Vec<String>)
    ensures
        string_views(paths@) == seen_from(workspace.workdir@, changed_paths(listing@)),
{
    let relative = changed_files(listing);
    let mut paths: Vec<String> = Vec::new();
    let mut i: usize = 0;
    while i < relative.len()
        invariant
            i <= relative.len(),
            string_views(relative@) == changed_paths(listing@),
            string_views(paths@) == seen_from(workspace.workdir@, changed_paths(listing@)).take(
                i as int,
            ),
        decreases relative.len() - i,
    {
        let ghost before = paths@;
        paths.push(join_path(workspace.workdir.as_str(), relative[i].as_str()));
        assert(string_views(relative@)[i as int] == relative@[i as int]@);
        assert(string_views(paths@) =~= string_views(before).push(
            join(workspace.workdir@, relative@[i as int]@),
        ));
        i += 1;
    }
    assert(seen_from(workspace.workdir@, changed_paths(listing@)).take(relative.len() as int)
        == seen_from(workspace.workdir@, changed_paths(listing@)));
    paths
}

/// Where the command stands: the answer that is awaited.
#[derive(Clone, Copy, Debug, PartialEq, Eq, Structural)]
pub enum FixupPhase {
    /// The changed files are being listed.
    Listing,
    /// The package definitions are being looked up.
    Finding,
    /// Definitions with the old extension are being moved.
    Relocating,
    /// The package definitions are being looked up again.
    FindingAgain,
    /// Definitions are being styled.
    Styling,
    /// The branch is being pushed.
    Pushing,
    /// The command is over.
    Finished,
}

/// The phase that follows `phase` when the step asked for succeeded.
pub open spec fn phase_after(phase: FixupPhase) -> FixupPhase {
    match phase {
        FixupPhase::Listing => FixupPhase::Finding,
        FixupPhase::Finding => FixupPhase::Relocating,
        FixupPhase::Relocating => FixupPhase::FindingAgain,
        FixupPhase::FindingAgain => FixupPhase::Styling,
        FixupPhase::Styling => FixupPhase::Pushing,
        FixupPhase::Pushing => FixupPhase::Finished,
        FixupPhase::Finished => FixupPhase::Finished,
    }
}

/// The number of phases that lie between a phase and the end of the command.
pub open spec fn phases_left(phase: FixupPhase) -> nat {
    match phase {
        FixupPhase::Listing => 6,
        FixupPhase::Finding => 5,
        FixupPhase::Relocating => 4,
        FixupPhase::FindingAgain => 3,
        FixupPhase::Styling => 2,
        FixupPhase::Pushing => 1,
        FixupPhase::Finished => 0,
    }
}

/// Each phase that succeeds brings the command nearer to its end; nothing
/// is pushed before the definitions were styled, and nothing is styled
/// before those with the old extension were moved.
pub proof fn fixup_order(phase: FixupPhase)
    requires
        phase != FixupPhase::Finished,
    ensures
        phases_left(phase_after(phase)) + 1 == phases_left(phase),
        phase_after(phase) == FixupPhase::Pushing ==> phase == FixupPhase::Styling,
        phase_after(phase) == FixupPhase::Styling ==> phase == FixupPhase::FindingAgain,
        phase_after(phase) == FixupPhase::FindingAgain ==> phase == FixupPhase::Relocating,
{
}

/// What the caller reports back.
#[derive(Debug)]
pub enum FixupEvent {
    /// The command ran; this is what it wrote to its standard output.
    Listed(Vec<u8>),
    /// These files were found below the directory, each by its path from
    /// there.
    Found(Vec<String>),
    /// The script ran to its end.
    Performed,
    /// The step asked for failed; the text says how.
    Failed(String),
}

/// What the caller is to do next.
#[derive(Debug)]
pub enum FixupStep {
    /// Run this command and report what it writes to its standard output.
    List(ProcessRequest),
    /// Report the files below this directory, at any depth: all that are no
    /// directories, or the regular files alone.
    Find { dir: String, regular_only: bool },
    /// Run this script.
    Perform(Vec<Stage>),
    /// The command succeeded.
    Succeeded,
    /// The command failed.
    Failed(String),
}

/// The status of a command that came to `step`: a command that failed is
/// an internal error; any other step is no failure.
pub fn failure_status(step: &FixupStep) -> (failure: Option<Status>)
    ensures
        failure == (if step is Failed {
            Some(Status::InternalServerError)
        } else {
            None::<Status>
        }),
{
    match step {
        FixupStep::Failed(_) => Some(Status::InternalServerError),
        _ => None,
    }
}

/// The run of the command that normalises the changed package definitions.
#[derive(Debug)]
pub struct RegistryFixup {
    pub phase: FixupPhase,
    /// The changed files, once they are known, each by its path seen from
    /// the workspace.
    pub changed: Vec<String>,
}

impl RegistryFixup {
    /// Whether `event` can be the answer awaited in this phase.
    pub open spec fn spec_expects(&self, event: &FixupEvent) -> bool {
        match self.phase {
            FixupPhase::Listing => event is Listed || event is Failed,
            FixupPhase::Finding | FixupPhase::FindingAgain => event is Found || event is Failed,
            FixupPhase::Relocating | FixupPhase::Styling | FixupPhase::Pushing => event is Performed
                || event is Failed,
            FixupPhase::Finished => false,
        }
    }

    #[verifier::when_used_as_spec(spec_expects)]
    pub fn expects(&self, event: &FixupEvent) -> (b: bool)
        ensures
            b == self.spec_expects(event),
    {
        match self.phase {
            FixupPhase::Listing => match event {
                FixupEvent::Listed(_) => true,
                FixupEvent::Failed(_) => true,
                _ => false,
            },
            FixupPhase::Finding | FixupPhase::FindingAgain => match event {
                FixupEvent::Found(_) => true,
                FixupEvent::Failed(_) => true,
                _ => false,
            },
            FixupPhase::Relocating | FixupPhase::Styling | FixupPhase::Pushing => match event {
                FixupEvent::Performed => true,
                FixupEvent::Failed(_) => true,
                _ => false,
            },
            FixupPhase::Finished => false,
        }
    }

    /// Takes the answer to the step last asked for and says what to do next.
    ///
    /// The changed files are listed; the package definitions are looked up
    /// and those with the old extension moved; the definitions are looked
    /// up again, as they now are, and styled; the branch is pushed. A
    /// failure that a script does not pass over ends the command at once.
    pub fn advance(&mut self, workspace: &Workspace, event: FixupEvent) -> (step: FixupStep)
        requires
            old(self).spec_expects(&event),
        ensures
            final(self).phase == if event is Failed {
                FixupPhase::Finished
            } else {
                phase_after(old(self).phase)
            },
            match (old(self).phase, event) {
                (_, FixupEvent::Failed(detail)) => {
                    &&& final(self).phase == FixupPhase::Finished
                    &&& step == FixupStep::Failed(detail)
                },
                (FixupPhase::Listing, FixupEvent::Listed(listing)) => {
                    &&& final(self).phase == FixupPhase::Finding
                    &&& string_views(final(self).changed@) == seen_from(
                        workspace.workdir@,
                        changed_paths(listing@),
                    )
                    &&& step matches FixupStep::Find { dir, regular_only } && dir@ == packages_dir(
                        workspace,
                    ) && !regular_only
                },
                (FixupPhase::Finding, FixupEvent::Found(entries)) => {
                    &&& final(self).phase == FixupPhase::Relocating
                    &&& final(self).changed == old(self).changed
                    &&& step matches FixupStep::Perform(script) && stage_views(script@)
                        == relocations(
                        workspace,
                        string_views(old(self).changed@),
                        string_views(entries@),
                    )
                },
                (FixupPhase::Relocating, FixupEvent::Performed) => {
                    &&& final(self).phase == FixupPhase::FindingAgain
                    &&& final(self).changed == old(self).changed
                    &&& step matches FixupStep::Find { dir, regular_only } && dir@ == packages_dir(
                        workspace,
                    ) && regular_only
                },
                (FixupPhase::FindingAgain, FixupEvent::Found(entries)) => {
                    &&& final(self).phase == FixupPhase::Styling
                    &&& final(self).changed == old(self).changed
                    &&& step matches FixupStep::Perform(script) && stage_views(script@)
                        == restylings(
                        workspace,
                        string_views(old(self).changed@),
                        string_views(entries@),
                    )
                },
                (FixupPhase::Styling, FixupEvent::Performed) => {
                    &&& final(self).phase == FixupPhase::Pushing
                    &&& step matches FixupStep::Perform(script) && stage_views(script@) == seq![
                        fatal_stage(workspace.spec_push()),
                    ]
                },
                (FixupPhase::Pushing, FixupEvent::Performed) => {
                    &&& final(self).phase == FixupPhase::Finished
                    &&& step is Succeeded
                },
                _ => false,
            },
    {
        match event {
            FixupEvent::Failed(detail) => {
                self.phase = FixupPhase::Finished;
                FixupStep::Failed(detail)
            },
            FixupEvent::Listed(listing) => {
                self.changed = changed_in(workspace, &listing);
                self.phase = FixupPhase::Finding;
                FixupStep::Find { dir: packages_dir_of(workspace), regular_only: false }
            },
            FixupEvent::Found(entries) => match self.phase {
                FixupPhase::Finding => {
                    self.phase = FixupPhase::Relocating;
                    FixupStep::Perform(yml_to_yaml(workspace, &self.changed, &entries))
                },
                _ => {
                    self.phase = FixupPhase::Styling;
                    FixupStep::Perform(fix_styling(workspace, &self.changed, &entries))
                },
            },
            FixupEvent::Performed => match self.phase {
                FixupPhase::Relocating => {
                    self.phase = FixupPhase::FindingAgain;
                    FixupStep::Find { dir: packages_dir_of(workspace), regular_only: true }
                },
                FixupPhase::Styling => {
                    self.phase = FixupPhase::Pushing;
                    let mut script: Vec<Stage> = Vec::new();
                    script.push(Stage::of(workspace.push(), true));
                    assert(stage_views(script@) =~= seq![fatal_stage(workspace.spec_push())]);
                    FixupStep::Perform(script)
                },
                _ => {
                    self.phase = FixupPhase::Finished;
                    FixupStep::Succeeded
                },
            },
        }
    }
}

/// Begins the command in its workspace: the changed files are listed first.
pub fn run(workspace: &Workspace) -> (r: (RegistryFixup, FixupStep))
    ensures
        r.0.phase == FixupPhase::Listing,
        r.1 matches FixupStep::List(request) && request@ == workspace.spec_get_changed_files(),
{
    (
        RegistryFixup { phase: FixupPhase::Listing, changed: Vec::new() },
        FixupStep::List(workspace.get_changed_files()),
    )
}

/// What is reported of a command that succeeded.
pub fn success(workspace: &Workspace) -> (message: String)
    ensures
        message@ == "Successfully ran mason-registry fixup in "@ + workspace.workdir@,
{
    let mut message = "Successfully ran mason-registry fixup in ".to_owned();
    message.append(workspace.workdir.as_str());
    message
}

} // verus!
