//! The steps of a release, and the parsing of the comma-separated lists that
//! name them on the command line.

use vstd::prelude::*;

verus! {

/// The characters of a string, in order.
pub fn chars_of(input: &str) -> (chars: Vec<char>)
    ensures
        chars@ == input@,
{
    let mut chars: Vec<char> = Vec::new();
    for c in it: input.chars()
        invariant
            chars@ == it.seq().subrange(0, it.index() as int),
            it.seq() == input@,
    {
        chars.push(c);
    }
    chars
}

/// Whether a word is spelled exactly like `name`.
pub fn word_is(word: &Vec<char>, name: &str) -> (same: bool)
    ensures
        same == (word@ == name@),
{
    let spelled = chars_of(name);
    if word.len() != spelled.len() {
        return false;
    }
    let mut i: usize = 0;
    while i < word.len()
        invariant
            i <= word.len(),
            word.len() == spelled.len(),
            spelled@ == name@,
            word@.subrange(0, i as int) == spelled@.subrange(0, i as int),
        decreases word.len() - i,
    {
        if word[i] != spelled[i] {
            assert(word@[i as int] != spelled@[i as int]);
            return false;
        }
        assert(word@.subrange(0, i + 1) == word@.subrange(0, i as int).push(word@[i as int]));
        assert(spelled@.subrange(0, i + 1) == spelled@.subrange(0, i as int).push(
            spelled@[i as int],
        ));
        i += 1;
    }
    assert(word@ == word@.subrange(0, word.len() as int));
    assert(spelled@ == spelled@.subrange(0, spelled.len() as int));
    true
}

/// The words of a comma-separated list: what stands before the first comma,
/// between two commas, and after the last. A list without a comma is one
/// word; commas side by side hold an empty word between them.
pub open spec fn split_commas(s: Seq<char>) -> Seq<Seq<char>>
    decreases s.len(),
{
    if s.len() == 0 {
        seq![Seq::empty()]
    } else {
        let before = split_commas(s.drop_last());
        if s.last() == ',' {
            before.push(Seq::empty())
        } else {
            before.update(before.len() - 1, before.last().push(s.last()))
        }
    }
}

/// The words held in a list of character vectors.
pub open spec fn words_view(words: Seq<Vec<char>>) -> Seq<Seq<char>> {
    Seq::new(words.len(), |i: int| words[i]@)
}

/// Splits a comma-separated list into its words.
pub fn split_at_commas(input: &str) -> (words: Vec<Vec<char>>)
    ensures
        words_view(words@) == split_commas(input@),
{
    let chars = chars_of(input);
    let mut words: Vec<Vec<char>> = Vec::new();
    let mut current: Vec<char> = Vec::new();
    let mut i: usize = 0;
    assert(chars@.subrange(0, 0) =~= Seq::<char>::empty());
    assert(words_view(words@).push(current@) =~= seq![Seq::<char>::empty()]);
    while i < chars.len()
        invariant
            i <= chars.len(),
            words_view(words@).push(current@) == split_commas(chars@.subrange(0, i as int)),
        decreases chars.len() - i,
    {
        let ghost prefix = chars@.subrange(0, i as int);
        let ghost next = chars@.subrange(0, i + 1);
        let ghost done = words_view(words@);
        let ghost word = current@;
        assert(next.drop_last() =~= prefix);
        assert(next.last() == chars@[i as int]);
        if chars[i] == ',' {
            words.push(current);
            current = Vec::new();
            assert(words_view(words@) =~= done.push(word));
            assert(words_view(words@).push(current@) =~= split_commas(prefix).push(Seq::empty()));
        } else {
            current.push(chars[i]);
            assert(words_view(words@).push(current@) =~= split_commas(prefix).update(
                split_commas(prefix).len() - 1,
                split_commas(prefix).last().push(chars@[i as int]),
            ));
        }
        i += 1;
    }
    assert(chars@.subrange(0, i as int) =~= chars@);
    let ghost done = words_view(words@);
    let ghost word = current@;
    words.push(current);
    assert(words_view(words@) =~= done.push(word));
    words
}

/// Why a command-line value was refused.
#[derive(Debug, PartialEq, Eq)]
pub enum CliError {
    /// A word of the list names no release step. Holds the whole list.
    UnknownReleaseStep { input: String },
    /// A word of the list names no kind of dependency. Holds the word, in lower case.
    InvalidDependencyKind { word: Vec<char> },
    /// The branch is no release branch. Holds its name.
    NotReleaseBranch { branch: String },
    /// A release can only start from the develop branch. Holds the name of
    /// the branch that is checked out.
    UnsupportedSourceBranch { branch: String },
    /// The repository holds changes that are not committed. Holds their number.
    RepositoryNotClean { changes: usize },
}

pub ghost enum CliErrorView {
    UnknownReleaseStep { input: Seq<char> },
    InvalidDependencyKind { word: Seq<char> },
    NotReleaseBranch { branch: Seq<char> },
    UnsupportedSourceBranch { branch: Seq<char> },
    RepositoryNotClean { changes: usize },
}

impl View for CliError {
    type V = CliErrorView;

    open spec fn view(&self) -> CliErrorView {
        match *self {
            CliError::UnknownReleaseStep { input } => CliErrorView::UnknownReleaseStep {
                input: input@,
            },
            CliError::InvalidDependencyKind { word } => CliErrorView::InvalidDependencyKind {
                word: word@,
            },
            CliError::NotReleaseBranch { branch } => CliErrorView::NotReleaseBranch {
                branch: branch@,
            },
            CliError::UnsupportedSourceBranch { branch } => CliErrorView::UnsupportedSourceBranch {
                branch: branch@,
            },
            CliError::RepositoryNotClean { changes } => CliErrorView::RepositoryNotClean {
                changes,
            },
        }
    }
}

/// The steps that make up the release workflow, in the order in which they run.
#[derive(Debug, Clone, Copy, PartialEq, Eq, Structural, PartialOrd, Ord, Hash)]
pub enum ReleaseSteps {
    /// Create a new release branch based on develop.
    CreateReleaseBranch,
    /// Select the crates, bump their versions, rotate the changelogs, commit and tag.
    BumpReleaseVersions,
    PushForPrToMain,
    CreatePrToMain,
    /// Verify that the release tag exists on the main branch.
    VerifyMainBranch,
    PublishToCratesIo,
    PushReleaseTag,
    BumpPostReleaseVersions,
    PushForDevelopPr,
    CreatePrToDevelop,
}

/// How many release steps there are.
pub const RELEASE_STEP_COUNT: usize = 10;

impl ReleaseSteps {
    /// The position of the step in the workflow, from 0.
    pub open spec fn spec_position(self) -> int {
        match self {
            ReleaseSteps::CreateReleaseBranch => 0,
            ReleaseSteps::BumpReleaseVersions => 1,
            ReleaseSteps::PushForPrToMain => 2,
            ReleaseSteps::CreatePrToMain => 3,
            ReleaseSteps::VerifyMainBranch => 4,
            ReleaseSteps::PublishToCratesIo => 5,
            ReleaseSteps::PushReleaseTag => 6,
            ReleaseSteps::BumpPostReleaseVersions => 7,
            ReleaseSteps::PushForDevelopPr => 8,
            ReleaseSteps::CreatePrToDevelop => 9,
        }
    }

    /// The step at a position of the workflow.
    pub open spec fn spec_at(position: int) -> ReleaseSteps {
        if position == 0 {
            ReleaseSteps::CreateReleaseBranch
        } else if position == 1 {
            ReleaseSteps::BumpReleaseVersions
        } else if position == 2 {
            ReleaseSteps::PushForPrToMain
        } else if position == 3 {
            ReleaseSteps::CreatePrToMain
        } else if position == 4 {
            ReleaseSteps::VerifyMainBranch
        } else if position == 5 {
            ReleaseSteps::PublishToCratesIo
        } else if position == 6 {
            ReleaseSteps::PushReleaseTag
        } else if position == 7 {
            ReleaseSteps::BumpPostReleaseVersions
        } else if position == 8 {
            ReleaseSteps::PushForDevelopPr
        } else {
            ReleaseSteps::CreatePrToDevelop
        }
    }

    /// The step that a word names. Names are spelled as the variants are, and
    /// nothing else names a step.
    pub open spec fn spec_from_word(word: Seq<char>) -> Option<ReleaseSteps> {
        if word == "CreateReleaseBranch"@ {
            Some(ReleaseSteps::CreateReleaseBranch)
        } else if word == "BumpReleaseVersions"@ {
            Some(ReleaseSteps::BumpReleaseVersions)
        } else if word == "PushForPrToMain"@ {
            Some(ReleaseSteps::PushForPrToMain)
        } else if word == "CreatePrToMain"@ {
            Some(ReleaseSteps::CreatePrToMain)
        } else if word == "VerifyMainBranch"@ {
            Some(ReleaseSteps::VerifyMainBranch)
        } else if word == "PublishToCratesIo"@ {
            Some(ReleaseSteps::PublishToCratesIo)
        } else if word == "PushReleaseTag"@ {
            Some(ReleaseSteps::PushReleaseTag)
        } else if word == "BumpPostReleaseVersions"@ {
            Some(ReleaseSteps::BumpPostReleaseVersions)
        } else if word == "PushForDevelopPr"@ {
            Some(ReleaseSteps::PushForDevelopPr)
        } else if word == "CreatePrToDevelop"@ {
            Some(ReleaseSteps::CreatePrToDevelop)
        } else {
            None
        }
    }

    /// The position of the step in the workflow, from 0.
    pub fn position(self) -> (position: usize)
        ensures
            position == self.spec_position(),
            position < RELEASE_STEP_COUNT,
            ReleaseSteps::spec_at(position as int) == self,
    {
        match self {
            ReleaseSteps::CreateReleaseBranch => 0,
            ReleaseSteps::BumpReleaseVersions => 1,
            ReleaseSteps::PushForPrToMain => 2,
            ReleaseSteps::CreatePrToMain => 3,
            ReleaseSteps::VerifyMainBranch => 4,
            ReleaseSteps::PublishToCratesIo => 5,
            ReleaseSteps::PushReleaseTag => 6,
            ReleaseSteps::BumpPostReleaseVersions => 7,
            ReleaseSteps::PushForDevelopPr => 8,
            ReleaseSteps::CreatePrToDevelop => 9,
        }
    }

    /// The step at a position of the workflow, if the workflow has so many steps.
    pub fn at(position: usize) -> (step: Option<Self>)
        ensures
            step == (if position < RELEASE_STEP_COUNT {
                Some(ReleaseSteps::spec_at(position as int))
            } else {
                None
            }),
            step matches Some(s) ==> s.spec_position() == position,
    {
        if position == 0 {
            Some(ReleaseSteps::CreateReleaseBranch)
        } else if position == 1 {
            Some(ReleaseSteps::BumpReleaseVersions)
        } else if position == 2 {
            Some(ReleaseSteps::PushForPrToMain)
        } else if position == 3 {
            Some(ReleaseSteps::CreatePrToMain)
        } else if position == 4 {
            Some(ReleaseSteps::VerifyMainBranch)
        } else if position == 5 {
            Some(ReleaseSteps::PublishToCratesIo)
        } else if position == 6 {
            Some(ReleaseSteps::PushReleaseTag)
        } else if position == 7 {
            Some(ReleaseSteps::BumpPostReleaseVersions)
        } else if position == 8 {
            Some(ReleaseSteps::PushForDevelopPr)
        } else if position == 9 {
            Some(ReleaseSteps::CreatePrToDevelop)
        } else {
            None
        }
    }

    /// The step that a word names, if it names one.
    pub fn from_word(word: &Vec<char>) -> (step: Option<Self>)
        ensures
            step == ReleaseSteps::spec_from_word(word@),
    {
        if word_is(word, "CreateReleaseBranch") {
            Some(ReleaseSteps::CreateReleaseBranch)
        } else if word_is(word, "BumpReleaseVersions") {
            Some(ReleaseSteps::BumpReleaseVersions)
        } else if word_is(word, "PushForPrToMain") {
            Some(ReleaseSteps::PushForPrToMain)
        } else if word_is(word, "CreatePrToMain") {
            Some(ReleaseSteps::CreatePrToMain)
        } else if word_is(word, "VerifyMainBranch") {
            Some(ReleaseSteps::VerifyMainBranch)
        } else if word_is(word, "PublishToCratesIo") {
            Some(ReleaseSteps::PublishToCratesIo)
        } else if word_is(word, "PushReleaseTag") {
            Some(ReleaseSteps::PushReleaseTag)
        } else if word_is(word, "BumpPostReleaseVersions") {
            Some(ReleaseSteps::BumpPostReleaseVersions)
        } else if word_is(word, "PushForDevelopPr") {
            Some(ReleaseSteps::PushForDevelopPr)
        } else if word_is(word, "CreatePrToDevelop") {
            Some(ReleaseSteps::CreatePrToDevelop)
        } else {
            None
        }
    }
}

/// Whether one of the first `n` words is not empty and names no release step.
pub open spec fn has_unknown_step(words: Seq<Seq<char>>, n: int) -> bool {
    exists|i: int|
        0 <= i < n && words[i].len() > 0 && (#[trigger] ReleaseSteps::spec_from_word(words[i]))
            is None
}

/// Whether one of the first `n` words names the step.
pub open spec fn names_step(words: Seq<Seq<char>>, n: int, step: ReleaseSteps) -> bool {
    exists|i: int|
        0 <= i < n && words[i].len() > 0 && #[trigger] ReleaseSteps::spec_from_word(words[i])
            == Some(step)
}

/// One more word names a step exactly if an earlier word did or the new one does.
pub proof fn lemma_names_step_next(words: Seq<Seq<char>>, n: int, step: ReleaseSteps)
    requires
        0 <= n < words.len(),
    ensures
        names_step(words, n + 1, step) <==> (names_step(words, n, step) || (words[n].len() > 0
            && ReleaseSteps::spec_from_word(words[n]) == Some(step))),
{
    if names_step(words, n + 1, step) {
        let i = choose|i: int|
            0 <= i < n + 1 && words[i].len() > 0 && #[trigger] ReleaseSteps::spec_from_word(
                words[i],
            ) == Some(step);
        if i < n {
            assert(names_step(words, n, step));
        }
    }
    if names_step(words, n, step) {
        let i = choose|i: int|
            0 <= i < n && words[i].len() > 0 && #[trigger] ReleaseSteps::spec_from_word(words[i])
                == Some(step);
        assert(0 <= i < n + 1);
        assert(names_step(words, n + 1, step));
    }
    if words[n].len() > 0 && ReleaseSteps::spec_from_word(words[n]) == Some(step) {
        assert(names_step(words, n + 1, step));
    }
}

/// One more word brings an unknown one exactly if an earlier word was or the new one is.
pub proof fn lemma_has_unknown_step_next(words: Seq<Seq<char>>, n: int)
    requires
        0 <= n < words.len(),
    ensures
        has_unknown_step(words, n + 1) <==> (has_unknown_step(words, n) || (words[n].len() > 0
            && ReleaseSteps::spec_from_word(words[n]) is None)),
{
    if has_unknown_step(words, n + 1) {
        let i = choose|i: int|
            0 <= i < n + 1 && words[i].len() > 0 && (#[trigger] ReleaseSteps::spec_from_word(
                words[i],
            )) is None;
        if i < n {
            assert(has_unknown_step(words, n));
        }
    }
    if has_unknown_step(words, n) {
        let i = choose|i: int|
            0 <= i < n && words[i].len() > 0 && (#[trigger] ReleaseSteps::spec_from_word(
                words[i],
            )) is None;
        assert(0 <= i < n + 1);
        assert(has_unknown_step(words, n + 1));
    }
    if words[n].len() > 0 && ReleaseSteps::spec_from_word(words[n]) is None {
        assert(has_unknown_step(words, n + 1));
    }
}

/// An unknown word among the first `n` is one among the first `m`, for `m` past `n`.
pub proof fn lemma_has_unknown_step_more(words: Seq<Seq<char>>, n: int, m: int)
    requires
        n <= m,
        has_unknown_step(words, n),
    ensures
        has_unknown_step(words, m),
{
    let i = choose|i: int|
        0 <= i < n && words[i].len() > 0 && (#[trigger] ReleaseSteps::spec_from_word(words[i]))
            is None;
    assert(0 <= i < m);
}

/// Whether the steps stand in the order of the workflow, none of them twice.
pub open spec fn in_workflow_order(steps: Seq<ReleaseSteps>) -> bool {
    forall|i: int, j: int|
        0 <= i < j < steps.len() ==> steps[i].spec_position() < steps[j].spec_position()
}

/// Parses a comma-separated list of release steps into the set of steps that
/// it names, in the order of the workflow whatever the order of the list.
/// Empty words are passed over. A word that names no step fails the whole
/// list.
pub fn parse_releasesteps(input: &str) -> (result: Result<Vec<ReleaseSteps>, CliError>)
    ensures
        match result {
            Ok(steps) => {
                &&& !has_unknown_step(split_commas(input@), split_commas(input@).len() as int)
                &&& in_workflow_order(steps@)
                &&& forall|step: ReleaseSteps|
                    steps@.contains(step) <==> names_step(
                        split_commas(input@),
                        split_commas(input@).len() as int,
                        step,
                    )
            },
            Err(e) => {
                &&& has_unknown_step(split_commas(input@), split_commas(input@).len() as int)
                &&& e@ == (CliErrorView::UnknownReleaseStep { input: input@ })
            },
        },
{
    let words = split_at_commas(input);
    let ghost all = words_view(words@);
    let mut named: Vec<bool> = Vec::new();
    let mut k: usize = 0;
    while k < RELEASE_STEP_COUNT
        invariant
            k <= RELEASE_STEP_COUNT,
            named.len() == k,
            forall|p: int| 0 <= p < k ==> !named[p],
        decreases RELEASE_STEP_COUNT - k,
    {
        named.push(false);
        k += 1;
    }
    let mut n: usize = 0;
    while n < words.len()
        invariant
            n <= words.len(),
            all == words_view(words@),
            all == split_commas(input@),
            named.len() == RELEASE_STEP_COUNT,
            !has_unknown_step(all, n as int),
            forall|step: ReleaseSteps|
                named[step.spec_position()] <==> names_step(all, n as int, step),
        decreases words.len() - n,
    {
        let word = &words[n];
        assert(all[n as int] == word@);
        proof {
            lemma_has_unknown_step_next(all, n as int);
        }
        if word.len() > 0 {
            match ReleaseSteps::from_word(word) {
                None => {
                    proof {
                        lemma_has_unknown_step_more(all, n + 1, all.len() as int);
                    }
                    return Err(CliError::UnknownReleaseStep { input: input.to_owned() });
                },
                Some(found) => {
                    let ghost before = named@;
                    named.set(found.position(), true);
                    assert forall|step: ReleaseSteps|
                        named[step.spec_position()] <==> names_step(all, n + 1, step) by {
                        lemma_names_step_next(all, n as int, step);
                        assert(ReleaseSteps::spec_at(step.spec_position()) == step);
                        assert(before[step.spec_position()] <==> names_step(all, n as int, step));
                        if step == found {
                            assert(named[step.spec_position()]);
                        } else {
                            assert(step.spec_position() != found.spec_position());
                            assert(named[step.spec_position()] == before[step.spec_position()]);
                        }
                    }
                },
            }
        } else {
            assert forall|step: ReleaseSteps|
                named[step.spec_position()] <==> names_step(all, n + 1, step) by {
                lemma_names_step_next(all, n as int, step);
            }
        }
        n += 1;
    }
    let mut steps: Vec<ReleaseSteps> = Vec::new();
    let mut p: usize = 0;
    while p < RELEASE_STEP_COUNT
        invariant
            p <= RELEASE_STEP_COUNT,
            named.len() == RELEASE_STEP_COUNT,
            in_workflow_order(steps@),
            forall|i: int| 0 <= i < steps.len() ==> steps[i].spec_position() < p,
            forall|step: ReleaseSteps|
                steps@.contains(step) <==> (step.spec_position() < p && named[step.spec_position()]),
        decreases RELEASE_STEP_COUNT - p,
    {
        let at_p = ReleaseSteps::at(p);
        if named[p] && at_p.is_some() {
            let ghost before = steps@;
            let step = at_p.unwrap();
            steps.push(step);
            assert forall|s: ReleaseSteps|
                steps@.contains(s) <==> (s.spec_position() < p + 1 && named[s.spec_position()]) by {
                if steps@.contains(s) {
                    let i = choose|i: int| 0 <= i < steps@.len() && steps@[i] == s;
                    if i < before.len() {
                        assert(before[i] == s);
                        assert(before.contains(s));
                    }
                }
                if s.spec_position() < p && named[s.spec_position()] {
                    assert(before.contains(s));
                    let i = choose|i: int| 0 <= i < before.len() && before[i] == s;
                    assert(steps@[i] == s);
                }
                if s.spec_position() == p {
                    assert(s == step);
                    assert(steps@[before.len() as int] == s);
                }
            }
        } else {
            assert forall|s: ReleaseSteps|
                steps@.contains(s) <==> (s.spec_position() < p + 1 && named[s.spec_position()]) by {
            }
        }
        p += 1;
    }
    Ok(steps)
}

/// The kinds of dependency that a crate can have on another.
#[derive(Debug, Clone, Copy, PartialEq, Eq, Structural, PartialOrd, Ord, Hash)]
pub enum CargoDepKind {
    Normal,
    Development,
    Build,
}

/// The name for what `str::to_lowercase` makes of a word.
pub uninterp spec fn lowercase_of(word: Seq<char>) -> Seq<char>;

/// `str::to_lowercase` on a word held as characters: the result is the
/// lower-case form that the standard library gives for these characters.
#[verifier::external_body]
fn lowercase(word: &Vec<char>) -> (lower: Vec<char>)
    ensures
        lower@ == lowercase_of(word@),
{
    let text: String = word.iter().collect();
    text.to_lowercase().chars().collect()
}

impl CargoDepKind {
    /// The kind that a word in lower case names.
    pub open spec fn spec_from_word(word: Seq<char>) -> Option<CargoDepKind> {
        if word == "normal"@ {
            Some(CargoDepKind::Normal)
        } else if word == "development"@ {
            Some(CargoDepKind::Development)
        } else if word == "build"@ {
            Some(CargoDepKind::Build)
        } else {
            None
        }
    }

    /// The kind that a word in lower case names, if it names one.
    pub fn from_word(word: &Vec<char>) -> (kind: Option<Self>)
        ensures
            kind == CargoDepKind::spec_from_word(word@),
    {
        if word_is(word, "normal") {
            Some(CargoDepKind::Normal)
        } else if word_is(word, "development") {
            Some(CargoDepKind::Development)
        } else if word_is(word, "build") {
            Some(CargoDepKind::Build)
        } else {
            None
        }
    }
}

/// Whether the word, in lower case, is neither empty nor the name of a kind.
pub open spec fn is_unknown_kind(word: Seq<char>) -> bool {
    lowercase_of(word).len() > 0 && CargoDepKind::spec_from_word(lowercase_of(word)) is None
}

/// Whether the word, in lower case, names the kind.
pub open spec fn word_names_kind(word: Seq<char>, kind: CargoDepKind) -> bool {
    lowercase_of(word).len() > 0 && CargoDepKind::spec_from_word(lowercase_of(word)) == Some(kind)
}

/// Whether one of the first `n` words names the kind.
pub open spec fn names_kind(words: Seq<Seq<char>>, n: int, kind: CargoDepKind) -> bool {
    exists|i: int| 0 <= i < n && #[trigger] word_names_kind(words[i], kind)
}

/// The kinds among normal, development and build that `flags` marks, in that order.
pub open spec fn marked_kinds(normal: bool, development: bool, build: bool) -> Seq<CargoDepKind> {
    (if normal {
        seq![CargoDepKind::Normal]
    } else {
        Seq::empty()
    }) + (if development {
        seq![CargoDepKind::Development]
    } else {
        Seq::empty()
    }) + (if build {
        seq![CargoDepKind::Build]
    } else {
        Seq::empty()
    })
}

/// What parsing a list of dependency kinds yields, given its words: the
/// failure for the first word that is neither empty nor a name, else the
/// kinds that the words name, each once, normal before development before
/// build.
pub open spec fn depkinds_of(words: Seq<Seq<char>>) -> Result<Seq<CargoDepKind>, CliErrorView> {
    if exists|i: int| 0 <= i < words.len() && #[trigger] is_unknown_kind(words[i]) {
        let first = choose|i: int|
            0 <= i < words.len() && #[trigger] is_unknown_kind(words[i]) && forall|j: int|
                0 <= j < i ==> !#[trigger] is_unknown_kind(words[j]);
        Err(CliErrorView::InvalidDependencyKind { word: lowercase_of(words[first]) })
    } else {
        Ok(
            marked_kinds(
                names_kind(words, words.len() as int, CargoDepKind::Normal),
                names_kind(words, words.len() as int, CargoDepKind::Development),
                names_kind(words, words.len() as int, CargoDepKind::Build),
            ),
        )
    }
}

/// The view of what `parse_depkind` returns.
pub open spec fn depkinds_view(result: Result<Vec<CargoDepKind>, CliError>) -> Result<
    Seq<CargoDepKind>,
    CliErrorView,
> {
    match result {
        Ok(kinds) => Ok(kinds@),
        Err(e) => Err(e@),
    }
}

/// Parses a comma-separated list of dependency kinds, written in any case.
pub fn parse_depkind(input: &str) -> (result: Result<Vec<CargoDepKind>, CliError>)
    ensures
        depkinds_view(result) == depkinds_of(split_commas(input@)),
{
    let words = split_at_commas(input);
    let ghost all = words_view(words@);
    let mut normal = false;
    let mut development = false;
    let mut build = false;
    let mut n: usize = 0;
    while n < words.len()
        invariant
            n <= words.len(),
            all == words_view(words@),
            all == split_commas(input@),
            forall|j: int| 0 <= j < n ==> !#[trigger] is_unknown_kind(all[j]),
            normal <==> names_kind(all, n as int, CargoDepKind::Normal),
            development <==> names_kind(all, n as int, CargoDepKind::Development),
            build <==> names_kind(all, n as int, CargoDepKind::Build),
        decreases words.len() - n,
    {
        assert(all[n as int] == words[n as int]@);
        let lower = lowercase(&words[n]);
        let ghost was_normal = normal;
        let ghost was_development = development;
        let ghost was_build = build;
        if lower.len() > 0 {
            match CargoDepKind::from_word(&lower) {
                None => {
                    proof {
                        assert(is_unknown_kind(all[n as int]));
                        let first = choose|i: int|
                            0 <= i < all.len() && #[trigger] is_unknown_kind(all[i]) && forall|
                                j: int,
                            |
                                0 <= j < i ==> !#[trigger] is_unknown_kind(all[j]);
                        assert(first == n) by {
                            if first < n {
                                assert(!is_unknown_kind(all[first]));
                            }
                            if first > n {
                                assert(!is_unknown_kind(all[n as int]));
                            }
                        }
                    }
                    return Err(CliError::InvalidDependencyKind { word: lower });
                },
                Some(CargoDepKind::Normal) => {
                    normal = true;
                },
                Some(CargoDepKind::Development) => {
                    development = true;
                },
                Some(CargoDepKind::Build) => {
                    build = true;
                },
            }
        }
        proof {
            lemma_names_kind_step(all, n as int, CargoDepKind::Normal);
            lemma_names_kind_step(all, n as int, CargoDepKind::Development);
            lemma_names_kind_step(all, n as int, CargoDepKind::Build);
        }
        n += 1;
    }
    let mut kinds: Vec<CargoDepKind> = Vec::new();
    if normal {
        kinds.push(CargoDepKind::Normal);
    }
    if development {
        kinds.push(CargoDepKind::Development);
    }
    if build {
        kinds.push(CargoDepKind::Build);
    }
    assert(kinds@ =~= marked_kinds(normal, development, build));
    Ok(kinds)
}

/// One more word names a kind exactly if an earlier word did or the new one does.
pub proof fn lemma_names_kind_step(words: Seq<Seq<char>>, n: int, kind: CargoDepKind)
    requires
        0 <= n < words.len(),
    ensures
        names_kind(words, n + 1, kind) <==> (names_kind(words, n, kind) || word_names_kind(
            words[n],
            kind,
        )),
{
    if names_kind(words, n + 1, kind) {
        let i = choose|i: int| 0 <= i < n + 1 && #[trigger] word_names_kind(words[i], kind);
        if i < n {
            assert(names_kind(words, n, kind));
        }
    }
    if names_kind(words, n, kind) {
        let i = choose|i: int| 0 <= i < n && #[trigger] word_names_kind(words[i], kind);
        assert(0 <= i < n + 1);
    }
}

/// What the name of every release branch starts with.
pub const RELEASE_BRANCH_PREFIX: &'static str = "release-";

/// Whether `name` starts with `prefix`.
pub open spec fn starts_with(name: Seq<char>, prefix: Seq<char>) -> bool {
    prefix.len() <= name.len() && name.subrange(0, prefix.len() as int) == prefix
}

/// Checks that the branch that is checked out is a release branch, and gives
/// its name back.
pub fn ensure_release_branch(branch_name: String) -> (result: Result<String, CliError>)
    ensures
        match result {
            Ok(name) => starts_with(branch_name@, RELEASE_BRANCH_PREFIX@) && name@ == branch_name@,
            Err(e) => !starts_with(branch_name@, RELEASE_BRANCH_PREFIX@) && e@ == (
            CliErrorView::NotReleaseBranch { branch: branch_name@ }),
        },
{
    let name = chars_of(branch_name.as_str());
    let prefix = chars_of(RELEASE_BRANCH_PREFIX);
    if name.len() < prefix.len() {
        return Err(CliError::NotReleaseBranch { branch: branch_name });
    }
    let mut i: usize = 0;
    while i < prefix.len()
        invariant
            i <= prefix.len() <= name.len(),
            name@ == branch_name@,
            prefix@ == RELEASE_BRANCH_PREFIX@,
            name@.subrange(0, i as int) == prefix@.subrange(0, i as int),
        decreases prefix.len() - i,
    {
        if name[i] != prefix[i] {
            assert(name@.subrange(0, prefix.len() as int)[i as int] != prefix@[i as int]);
            return Err(CliError::NotReleaseBranch { branch: branch_name });
        }
        assert(name@.subrange(0, i + 1) == name@.subrange(0, i as int).push(name@[i as int]));
        assert(prefix@.subrange(0, i + 1) == prefix@.subrange(0, i as int).push(
            prefix@[i as int],
        ));
        i += 1;
    }
    assert(prefix@ == prefix@.subrange(0, prefix.len() as int));
    Ok(branch_name)
}

/// What the release command does for a step.
#[derive(Debug, Clone, Copy, PartialEq, Eq, Structural, Hash)]
pub enum ReleaseAction {
    CreateReleaseBranch,
    BumpReleaseVersions,
    PublishToCratesIo,
    BumpPostReleaseVersions,
    /// The step is done by hand.
    Nothing,
}

impl ReleaseSteps {
    /// What the release command does for the step. Pushing, the pull
    /// requests and the check of the main branch are done by hand.
    pub open spec fn spec_action(self) -> ReleaseAction {
        match self {
            ReleaseSteps::CreateReleaseBranch => ReleaseAction::CreateReleaseBranch,
            ReleaseSteps::BumpReleaseVersions => ReleaseAction::BumpReleaseVersions,
            ReleaseSteps::PublishToCratesIo => ReleaseAction::PublishToCratesIo,
            ReleaseSteps::BumpPostReleaseVersions => ReleaseAction::BumpPostReleaseVersions,
            _ => ReleaseAction::Nothing,
        }
    }

    /// What the release command does for the step.
    pub fn action(self) -> (action: ReleaseAction)
        ensures
            action == self.spec_action(),
    {
        match self {
            ReleaseSteps::CreateReleaseBranch => ReleaseAction::CreateReleaseBranch,
            ReleaseSteps::BumpReleaseVersions => ReleaseAction::BumpReleaseVersions,
            ReleaseSteps::PublishToCratesIo => ReleaseAction::PublishToCratesIo,
            ReleaseSteps::BumpPostReleaseVersions => ReleaseAction::BumpPostReleaseVersions,
            _ => ReleaseAction::Nothing,
        }
    }
}

/// The actions of the release command for the given steps, one for each step
/// and in the order of the steps.
pub fn cmd(steps: &Vec<ReleaseSteps>) -> (actions: Vec<ReleaseAction>)
    ensures
        actions@ == Seq::new(steps@.len(), |i: int| steps@[i].spec_action()),
{
    let mut actions: Vec<ReleaseAction> = Vec::new();
    let mut i: usize = 0;
    while i < steps.len()
        invariant
            i <= steps.len(),
            actions@ == Seq::new(i as nat, |j: int| steps@[j].spec_action()),
        decreases steps.len() - i,
    {
        actions.push(steps[i].action());
        assert(actions@ =~= Seq::new((i + 1) as nat, |j: int| steps@[j].spec_action()));
        i += 1;
    }
    actions
}

/// Whether a release branch may be created: the develop branch has to be
/// checked out and the repository has to be clean, unless the creation is
/// forced. The branch is looked at first.
pub open spec fn branch_creation(head_branch: Seq<char>, changes: usize, force: bool) -> Result<
    (),
    CliErrorView,
> {
    if head_branch != "develop"@ && !force {
        Err(CliErrorView::UnsupportedSourceBranch { branch: head_branch })
    } else if changes != 0 && !force {
        Err(CliErrorView::RepositoryNotClean { changes })
    } else {
        Ok(())
    }
}

/// The view of what `create_release_branch` returns.
pub open spec fn branch_creation_view(result: Result<(), CliError>) -> Result<(), CliErrorView> {
    match result {
        Ok(()) => Ok(()),
        Err(e) => Err(e@),
    }
}

/// Decides whether a release branch may be created, given the branch that is
/// checked out and the number of changes that are not committed.
pub fn create_release_branch(head_branch: &str, changes: usize, force: bool) -> (result: Result<
    (),
    CliError,
>)
    ensures
        branch_creation_view(result) == branch_creation(head_branch@, changes, force),
{
    let head = chars_of(head_branch);
    if !word_is(&head, "develop") && !force {
        Err(CliError::UnsupportedSourceBranch { branch: head_branch.to_owned() })
    } else if changes != 0 && !force {
        Err(CliError::RepositoryNotClean { changes })
    } else {
        Ok(())
    }
}

/// The arguments with which cargo is called to publish the crate whose
/// manifest lies at `manifest_path`.
pub open spec fn publish_arguments(dry_run: bool, allow_dirty: bool, manifest_path: Seq<char>) -> Seq<
    Seq<char>,
> {
    seq!["publish"@] + (if dry_run {
        seq!["--dry-run"@, "--no-verify"@]
    } else {
        Seq::empty()
    }) + (if allow_dirty {
        seq!["--allow-dirty"@]
    } else {
        Seq::empty()
    }) + seq![
        "--no-default-features"@,
        "--verbose"@,
        "--locked"@,
        "--manifest-path="@ + manifest_path,
    ]
}

/// Builds the arguments with which cargo is called to publish a crate.
pub fn publish_args(dry_run: bool, allow_dirty: bool, manifest_path: &str) -> (args: Vec<String>)
    ensures
        args.deep_view() == publish_arguments(dry_run, allow_dirty, manifest_path@),
{
    let mut args: Vec<String> = Vec::new();
    args.push(String::from_str("publish"));
    if dry_run {
        args.push(String::from_str("--dry-run"));
        args.push(String::from_str("--no-verify"));
    }
    if allow_dirty {
        args.push(String::from_str("--allow-dirty"));
    }
    args.push(String::from_str("--no-default-features"));
    args.push(String::from_str("--verbose"));
    args.push(String::from_str("--locked"));
    args.push(String::from_str("--manifest-path=").concat(manifest_path));
    assert(args.deep_view() =~= publish_arguments(dry_run, allow_dirty, manifest_path@));
    args
}

} // verus!
