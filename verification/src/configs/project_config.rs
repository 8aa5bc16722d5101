//! The settings of a project, as its manifest gives them under
//! `[package.metadata.frc]`.

use vstd::prelude::*;
use vstd::string::*;
use crate::document::{item_views, Document, DocumentView};
use crate::errors::ProjectConfigError;
use crate::decimal::{dotted_quad, parse_dotted_quad, parse_plain_unsigned, plain_unsigned};
use crate::text::{distinct, holds_text, lemma_distinct, no_repeats, same_text, texts};

verus! {

/// The configuration flag of code that runs on a robot.
pub const RUNTIME_REAL_CFG: &'static str = "frc_real";

/// The configuration flag of code that runs in the simulator.
pub const RUNTIME_SIM_CFG: &'static str = "frc_sim";

/// The configuration flag of a development build.
pub const DEV_CFG: &'static str = "frc_dev";

/// The configuration flag of every build.
pub const DEFAULT_CFG: &'static str = "frc";

/// What the `team` attribute should be.
pub const TEAM_HINT: &'static str =
    "a number or a string that can be parsed as a number thats less than 65536";

/// What the `robots` attribute should be.
pub const ROBOTS_HINT: &'static str = "an array of objects with a name and serials attribute";

/// What the name of a robot should be.
pub const ROBOTS_NAME_HINT: &'static str = "a string";

/// What the serial numbers of a robot should be.
pub const ROBOTS_SERIALS_HINT: &'static str = "an array of strings";

/// What the `override-address` attribute should be.
pub const OVERRIDE_ADDRESS_HINT: &'static str = "a string that can be parsed as an ipv4 address";

/// What the `deploy-dir` attribute should be.
pub const DEPLOY_DIR_HINT: &'static str =
    "a string that can be used as a unix path, will be used relative to the deploy user's home directory";

/// What the `default-check` attribute should be.
pub const DEFAULT_CHECK_HINT: &'static str = "a string that is either \"real\" or \"sim\"";

/// The number of a team.
#[derive(Debug, Clone, Copy, PartialEq, Eq, Structural)]
pub struct TeamNumber(pub u16);

/// An address of the fourth version of the internet protocol, by its four
/// numbers.
#[derive(Debug, Clone, Copy, PartialEq, Eq, Structural)]
pub struct Ipv4Address(pub u8, pub u8, pub u8, pub u8);

/// A robot of the team: its name, and the serial numbers of the controllers
/// that it goes by. No serial number stands twice.
#[derive(Debug)]
pub struct Robot {
    pub name: String,
    pub serials: Vec<String>,
}

/// A `Robot` by the characters of its texts.
pub struct RobotView {
    pub name: Seq<char>,
    pub serials: Seq<Seq<char>>,
}

impl View for Robot {
    type V = RobotView;

    open spec fn view(&self) -> RobotView {
        RobotView { name: self.name@, serials: texts(self.serials@) }
    }
}

impl RobotView {
    /// No serial number stands twice.
    pub open spec fn well_formed(self) -> bool {
        no_repeats(self.serials)
    }
}

/// The directories that builds go to, one for each kind of build.
#[derive(Debug)]
pub struct TargetDirs {
    pub real_dev: String,
    pub real: String,
    pub sim_dev: String,
    pub sim: String,
}

/// What code is built for: a robot, or the simulator.
#[derive(Debug, Clone, Copy, PartialEq, Eq, Structural)]
pub enum Runtimes {
    Real,
    Sim,
}

/// The settings of a project.
#[derive(Debug)]
pub struct ProjectConfig {
    pub team: TeamNumber,
    pub robots: Vec<Robot>,
    /// The address to deploy to, where it is not the one of the team.
    pub address: Option<Ipv4Address>,
    pub deploy_dir: Option<String>,
    pub default_check: Runtimes,
    pub target_dirs: TargetDirs,
}

/// The settings of a project that its manifest gives, by the characters of
/// their texts.
pub struct ProjectSettings {
    pub team: TeamNumber,
    pub robots: Seq<RobotView>,
    pub address: Option<Ipv4Address>,
    pub deploy_dir: Option<Seq<char>>,
    pub default_check: Runtimes,
}

/// The views of `robots`.
pub open spec fn robot_views(robots: Seq<Robot>) -> Seq<RobotView> {
    Seq::new(robots.len(), |i: int| robots[i]@)
}

impl ProjectConfig {
    /// What the manifest has given.
    pub open spec fn settings(self) -> ProjectSettings {
        ProjectSettings {
            team: self.team,
            robots: robot_views(self.robots@),
            address: self.address,
            deploy_dir: match self.deploy_dir {
                Some(dir) => Some(dir@),
                None => None,
            },
            default_check: self.default_check,
        }
    }
}

/// A `ProjectConfigError` by the characters of its texts.
pub enum ProjectConfigErrorView {
    CargoMetadata,
    MissingRootPackage,
    MissingFrcMetadata,
    MissingAttribute(Seq<char>),
    ParseAttribute(Seq<char>, Seq<char>),
}

impl View for ProjectConfigError {
    type V = ProjectConfigErrorView;

    open spec fn view(&self) -> ProjectConfigErrorView {
        match *self {
            ProjectConfigError::CargoMetadata => ProjectConfigErrorView::CargoMetadata,
            ProjectConfigError::MissingRootPackage => ProjectConfigErrorView::MissingRootPackage,
            ProjectConfigError::MissingFrcMetadata => ProjectConfigErrorView::MissingFrcMetadata,
            ProjectConfigError::MissingAttribute(name) => ProjectConfigErrorView::MissingAttribute(
                name@,
            ),
            ProjectConfigError::ParseAttribute(name, hint) => {
                ProjectConfigErrorView::ParseAttribute(name@, hint@)
            },
        }
    }
}

/// The rule for the `team` attribute: it must be there, as a number or as
/// a string that writes one, and the number must fit 16 bits.
pub open spec fn team_rule(doc: DocumentView) -> Result<TeamNumber, ProjectConfigErrorView> {
    match doc.member("team"@) {
        None => Err(ProjectConfigErrorView::MissingAttribute("team"@)),
        Some(DocumentView::Number(written)) => match DocumentView::Number(written).unsigned() {
            Some(number) if number <= u16::MAX => Ok(TeamNumber(number as u16)),
            _ => Err(ProjectConfigErrorView::ParseAttribute("team"@, TEAM_HINT@)),
        },
        Some(DocumentView::String(written)) => match plain_unsigned(written, u16::MAX as nat) {
            Some(number) => Ok(TeamNumber(number as u16)),
            None => Err(ProjectConfigErrorView::ParseAttribute("team"@, TEAM_HINT@)),
        },
        Some(_) => Err(ProjectConfigErrorView::ParseAttribute("team"@, TEAM_HINT@)),
    }
}

/// Whether every one of `items` is a string.
pub open spec fn all_strings(items: Seq<DocumentView>) -> bool {
    forall|i: int| 0 <= i < items.len() ==> (#[trigger] items[i]).text() is Some
}

/// The characters of each of `items`, where all of them are strings.
pub open spec fn string_texts(items: Seq<DocumentView>) -> Seq<Seq<char>> {
    Seq::new(items.len(), |i: int| items[i].text()->0)
}

/// The rule for one robot of the `robots` attribute: an object with a
/// `name`, a string, and with `serials`, an array of strings, of which each
/// is kept once.
pub open spec fn robot_rule(doc: DocumentView) -> Result<RobotView, ProjectConfigErrorView> {
    match doc.member("name"@) {
        None => Err(ProjectConfigErrorView::MissingAttribute("robots[i].name"@)),
        Some(name) => match name.text() {
            None => Err(
                ProjectConfigErrorView::ParseAttribute("robots[i].name"@, ROBOTS_NAME_HINT@),
            ),
            Some(name) => match doc.member("serials"@) {
                None => Err(ProjectConfigErrorView::MissingAttribute("robots[i].serials"@)),
                Some(serials) => match serials.items() {
                    Some(items) if all_strings(items) => Ok(
                        RobotView { name, serials: distinct(string_texts(items)) },
                    ),
                    _ => Err(
                        ProjectConfigErrorView::ParseAttribute(
                            "robots[i].serials"@,
                            ROBOTS_SERIALS_HINT@,
                        ),
                    ),
                },
            },
        },
    }
}

/// The robots that `items` give, in their order; the first of them that
/// fails decides.
pub open spec fn robot_list_rule(items: Seq<DocumentView>) -> Result<
    Seq<RobotView>,
    ProjectConfigErrorView,
>
    decreases items.len(),
{
    if items.len() == 0 {
        Ok(Seq::empty())
    } else {
        match robot_list_rule(items.drop_last()) {
            Err(failure) => Err(failure),
            Ok(front) => match robot_rule(items.last()) {
                Err(failure) => Err(failure),
                Ok(robot) => Ok(front.push(robot)),
            },
        }
    }
}

/// The rule for the `robots` attribute: it must be there and be an array of
/// robots.
pub open spec fn robots_rule(doc: DocumentView) -> Result<Seq<RobotView>, ProjectConfigErrorView> {
    match doc.member("robots"@) {
        None => Err(ProjectConfigErrorView::MissingAttribute("robots"@)),
        Some(robots) => match robots.items() {
            None => Err(ProjectConfigErrorView::ParseAttribute("robots"@, ROBOTS_HINT@)),
            Some(items) => robot_list_rule(items),
        },
    }
}

/// The rule for the `override-address` attribute: where it is there, it is
/// a string that writes an address in dotted notation.
pub open spec fn address_rule(doc: DocumentView) -> Result<
    Option<Ipv4Address>,
    ProjectConfigErrorView,
> {
    match doc.member("override-address"@) {
        None => Ok(None),
        Some(value) => match value.text() {
            None => Err(
                ProjectConfigErrorView::ParseAttribute("override-address"@, OVERRIDE_ADDRESS_HINT@),
            ),
            Some(written) => match dotted_quad(written) {
                Some(quad) => Ok(Some(Ipv4Address(quad.0, quad.1, quad.2, quad.3))),
                None => Err(
                    ProjectConfigErrorView::ParseAttribute(
                        "override-address"@,
                        OVERRIDE_ADDRESS_HINT@,
                    ),
                ),
            },
        },
    }
}

/// The rule for the `deploy-dir` attribute: where it is there, it is a
/// string.
pub open spec fn deploy_dir_rule(doc: DocumentView) -> Result<
    Option<Seq<char>>,
    ProjectConfigErrorView,
> {
    match doc.member("deploy-dir"@) {
        None => Ok(None),
        Some(value) => match value.text() {
            None => Err(ProjectConfigErrorView::ParseAttribute("deploy-dir"@, DEPLOY_DIR_HINT@)),
            Some(dir) => Ok(Some(dir)),
        },
    }
}

/// The rule for the `default-check` attribute: it must be there and be
/// `real` or `sim`.
pub open spec fn default_check_rule(doc: DocumentView) -> Result<Runtimes, ProjectConfigErrorView> {
    match doc.member("default-check"@) {
        None => Err(ProjectConfigErrorView::MissingAttribute("default-check"@)),
        Some(value) => match value.text() {
            None => Err(
                ProjectConfigErrorView::ParseAttribute("default-check"@, DEFAULT_CHECK_HINT@),
            ),
            Some(word) => if word == "real"@ {
                Ok(Runtimes::Real)
            } else if word == "sim"@ {
                Ok(Runtimes::Sim)
            } else {
                Err(ProjectConfigErrorView::ParseAttribute("default-check"@, DEFAULT_CHECK_HINT@))
            },
        },
    }
}

/// The settings that the rules give for `doc`. The attributes are read in
/// the order `team`, `robots`, `override-address`, `deploy-dir`,
/// `default-check`, and the first that fails decides.
pub open spec fn settings_rule(doc: DocumentView) -> Result<
    ProjectSettings,
    ProjectConfigErrorView,
> {
    match team_rule(doc) {
        Err(failure) => Err(failure),
        Ok(team) => match robots_rule(doc) {
            Err(failure) => Err(failure),
            Ok(robots) => match address_rule(doc) {
                Err(failure) => Err(failure),
                Ok(address) => match deploy_dir_rule(doc) {
                    Err(failure) => Err(failure),
                    Ok(deploy_dir) => match default_check_rule(doc) {
                        Err(failure) => Err(failure),
                        Ok(default_check) => Ok(
                            ProjectSettings { team, robots, address, deploy_dir, default_check },
                        ),
                    },
                },
            },
        },
    }
}

/// Reads the `team` attribute.
pub fn read_team(doc: &Document) -> (read: Result<TeamNumber, ProjectConfigError>)
    ensures
        match team_rule(doc@) {
            Ok(team) => read matches Ok(found) && found == team,
            Err(failure) => read matches Err(e) && e@ == failure,
        },
{
    let attr = match doc.get("team") {
        None => {
            return Err(ProjectConfigError::MissingAttribute("team"));
        },
        Some(attr) => attr,
    };
    match attr {
        Document::Number(_) => match attr.as_u64() {
            Some(number) => {
                if number <= 65535 {
                    Ok(TeamNumber(number as u16))
                } else {
                    Err(ProjectConfigError::ParseAttribute("team", TEAM_HINT))
                }
            },
            None => Err(ProjectConfigError::ParseAttribute("team", TEAM_HINT)),
        },
        Document::String(written) => match parse_plain_unsigned(written.as_str(), 65535) {
            Some(number) => Ok(TeamNumber(number as u16)),
            None => Err(ProjectConfigError::ParseAttribute("team", TEAM_HINT)),
        },
        _ => Err(ProjectConfigError::ParseAttribute("team", TEAM_HINT)),
    }
}

/// Reads a list of serial numbers, keeping each once.
pub fn read_serials(items: &Vec<Document>) -> (read: Option<Vec<String>>)
    ensures
        match read {
            Some(serials) => all_strings(item_views(items@)) && texts(serials@) == distinct(
                string_texts(item_views(items@)),
            ),
            None => !all_strings(item_views(items@)),
        },
{
    let ghost trees = item_views(items@);
    let mut serials: Vec<String> = Vec::new();
    let mut i: usize = 0;
    assert(string_texts(trees).take(0) =~= Seq::empty());
    while i < items.len()
        invariant
            i <= items.len(),
            trees == item_views(items@),
            forall|k: int| 0 <= k < i ==> (#[trigger] trees[k]).text() is Some,
            texts(serials@) == distinct(string_texts(trees).take(i as int)),
        decreases items.len() - i,
    {
        let ghost seen = string_texts(trees).take(i as int + 1);
        proof {
            assert(seen.drop_last() =~= string_texts(trees).take(i as int));
            assert(trees[i as int] == items@[i as int]@);
        }
        match items[i].as_str() {
            None => {
                return None;
            },
            Some(serial) => {
                assert(seen.last() == serial@);
                if !holds_text(&serials, serial) {
                    let ghost before = texts(serials@);
                    serials.push(serial.to_owned());
                    assert(texts(serials@) =~= before.push(serial@));
                }
            },
        }
        i += 1;
    }
    assert(string_texts(trees).take(items.len() as int) =~= string_texts(trees));
    Some(serials)
}

/// Reads one robot.
pub fn read_robot(doc: &Document) -> (read: Result<Robot, ProjectConfigError>)
    ensures
        match robot_rule(doc@) {
            Ok(robot) => read matches Ok(found) && found@ == robot,
            Err(failure) => read matches Err(e) && e@ == failure,
        },
        read matches Ok(found) ==> found@.well_formed(),
{
    let name = match doc.get("name") {
        None => {
            return Err(ProjectConfigError::MissingAttribute("robots[i].name"));
        },
        Some(name) => match name.as_str() {
            None => {
                return Err(ProjectConfigError::ParseAttribute("robots[i].name", ROBOTS_NAME_HINT));
            },
            Some(name) => name,
        },
    };
    let items = match doc.get("serials") {
        None => {
            return Err(ProjectConfigError::MissingAttribute("robots[i].serials"));
        },
        Some(serials) => match serials.as_array() {
            None => {
                return Err(
                    ProjectConfigError::ParseAttribute("robots[i].serials", ROBOTS_SERIALS_HINT),
                );
            },
            Some(items) => items,
        },
    };
    match read_serials(items) {
        None => Err(ProjectConfigError::ParseAttribute("robots[i].serials", ROBOTS_SERIALS_HINT)),
        Some(serials) => {
            proof {
                lemma_distinct(string_texts(item_views(items@)));
            }
            Ok(Robot { name: name.to_owned(), serials })
        },
    }
}

/// Reads the `robots` attribute.
pub fn read_robots(doc: &Document) -> (read: Result<Vec<Robot>, ProjectConfigError>)
    ensures
        match robots_rule(doc@) {
            Ok(robots) => read matches Ok(found) && robot_views(found@) == robots,
            Err(failure) => read matches Err(e) && e@ == failure,
        },
        read matches Ok(found) ==> forall|i: int|
            0 <= i < found.len() ==> (#[trigger] found[i])@.well_formed(),
{
    let items = match doc.get("robots") {
        None => {
            return Err(ProjectConfigError::MissingAttribute("robots"));
        },
        Some(robots) => match robots.as_array() {
            None => {
                return Err(ProjectConfigError::ParseAttribute("robots", ROBOTS_HINT));
            },
            Some(items) => items,
        },
    };
    let ghost trees = item_views(items@);
    let mut robots: Vec<Robot> = Vec::new();
    let mut i: usize = 0;
    assert(trees.take(0) =~= Seq::empty());
    assert(robot_views(robots@) =~= Seq::empty());
    while i < items.len()
        invariant
            i <= items.len(),
            trees == item_views(items@),
            robots_rule(doc@) == robot_list_rule(trees),
            robot_list_rule(trees.take(i as int)) matches Ok(front) && front == robot_views(
                robots@,
            ),
            forall|k: int| 0 <= k < robots.len() ==> (#[trigger] robots[k])@.well_formed(),
        decreases items.len() - i,
    {
        let ghost seen = trees.take(i as int + 1);
        proof {
            assert(seen.drop_last() =~= trees.take(i as int));
            assert(seen.last() == items@[i as int]@);
        }
        match read_robot(&items[i]) {
            Err(failure) => {
                proof {
                    lemma_robot_list_fails(trees, i as int + 1);
                }
                return Err(failure);
            },
            Ok(robot) => {
                let ghost before = robot_views(robots@);
                robots.push(robot);
                assert(robot_views(robots@) =~= before.push(robot@));
            },
        }
        i += 1;
    }
    assert(trees.take(items.len() as int) =~= trees);
    Ok(robots)
}

/// A list of robots whose front fails, fails as its front does.
pub proof fn lemma_robot_list_fails(items: Seq<DocumentView>, len: int)
    requires
        0 <= len <= items.len(),
        robot_list_rule(items.take(len)) is Err,
    ensures
        robot_list_rule(items) == robot_list_rule(items.take(len)),
    decreases items.len() - len,
{
    if len == items.len() {
        assert(items.take(len) =~= items);
    } else {
        assert(items.drop_last().take(len) =~= items.take(len));
        lemma_robot_list_fails(items.drop_last(), len);
    }
}

/// Reads the `override-address` attribute.
pub fn read_address(doc: &Document) -> (read: Result<Option<Ipv4Address>, ProjectConfigError>)
    ensures
        match address_rule(doc@) {
            Ok(address) => read matches Ok(found) && found == address,
            Err(failure) => read matches Err(e) && e@ == failure,
        },
{
    match doc.get("override-address") {
        None => Ok(None),
        Some(value) => match value.as_str() {
            None => Err(
                ProjectConfigError::ParseAttribute("override-address", OVERRIDE_ADDRESS_HINT),
            ),
            Some(written) => match parse_dotted_quad(written) {
                Some(quad) => Ok(Some(Ipv4Address(quad.0, quad.1, quad.2, quad.3))),
                None => Err(
                    ProjectConfigError::ParseAttribute("override-address", OVERRIDE_ADDRESS_HINT),
                ),
            },
        },
    }
}

/// Reads the `deploy-dir` attribute.
pub fn read_deploy_dir(doc: &Document) -> (read: Result<Option<String>, ProjectConfigError>)
    ensures
        match deploy_dir_rule(doc@) {
            Ok(Some(dir)) => read matches Ok(Some(found)) && found@ == dir,
            Ok(None) => read matches Ok(None),
            Err(failure) => read matches Err(e) && e@ == failure,
        },
{
    match doc.get("deploy-dir") {
        None => Ok(None),
        Some(value) => match value.as_str() {
            None => Err(ProjectConfigError::ParseAttribute("deploy-dir", DEPLOY_DIR_HINT)),
            Some(dir) => Ok(Some(dir.to_owned())),
        },
    }
}

/// Reads the `default-check` attribute.
pub fn read_default_check(doc: &Document) -> (read: Result<Runtimes, ProjectConfigError>)
    ensures
        match default_check_rule(doc@) {
            Ok(runtime) => read matches Ok(found) && found == runtime,
            Err(failure) => read matches Err(e) && e@ == failure,
        },
{
    match doc.get("default-check") {
        None => Err(ProjectConfigError::MissingAttribute("default-check")),
        Some(value) => match value.as_str() {
            None => Err(ProjectConfigError::ParseAttribute("default-check", DEFAULT_CHECK_HINT)),
            Some(word) => {
                if same_text(word, "real") {
                    Ok(Runtimes::Real)
                } else if same_text(word, "sim") {
                    Ok(Runtimes::Sim)
                } else {
                    Err(ProjectConfigError::ParseAttribute("default-check", DEFAULT_CHECK_HINT))
                }
            },
        },
    }
}

/// Reads the settings of a project from `frc_cfg`, the document that its
/// manifest holds under `[package.metadata.frc]`; `target_dirs` are the
/// directories that its builds go to.
pub fn read_project_config(frc_cfg: &Document, target_dirs: TargetDirs) -> (read: Result<
    ProjectConfig,
    ProjectConfigError,
>)
    ensures
        match settings_rule(frc_cfg@) {
            Ok(settings) => read matches Ok(config) && config.settings() == settings
                && config.target_dirs == target_dirs,
            Err(failure) => read matches Err(e) && e@ == failure,
        },
        read matches Ok(config) ==> forall|i: int|
            0 <= i < config.robots.len() ==> (#[trigger] config.robots[i])@.well_formed(),
{
    let team = match read_team(frc_cfg) {
        Err(failure) => {
            return Err(failure);
        },
        Ok(team) => team,
    };
    let robots = match read_robots(frc_cfg) {
        Err(failure) => {
            return Err(failure);
        },
        Ok(robots) => robots,
    };
    let address = match read_address(frc_cfg) {
        Err(failure) => {
            return Err(failure);
        },
        Ok(address) => address,
    };
    let deploy_dir = match read_deploy_dir(frc_cfg) {
        Err(failure) => {
            return Err(failure);
        },
        Ok(deploy_dir) => deploy_dir,
    };
    let default_check = match read_default_check(frc_cfg) {
        Err(failure) => {
            return Err(failure);
        },
        Ok(default_check) => default_check,
    };
    Ok(ProjectConfig { team, robots, address, deploy_dir, default_check, target_dirs })
}

} // verus!
