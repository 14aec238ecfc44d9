//! The private configuration: what it holds, where it lies and how it is kept.
use crate::address;
use crate::protocol;
use vstd::prelude::*;
use vstd::utf8::encode_utf8;

verus! {

broadcast use vstd::array::group_array_axioms;

/// The proximity keys of a device. They have no `Debug`, so that they do not end
/// up in a log.
#[derive(Clone, Copy)]
pub struct Keys {
    pub irk: [u8; 16],
    pub enc: [u8; 16],
}

#[verifier::ext_equal]
pub struct KeysView {
    pub irk: Seq<u8>,
    pub enc: Seq<u8>,
}

impl View for Keys {
    type V = KeysView;

    open spec fn view(&self) -> KeysView {
        KeysView { irk: self.irk@, enc: self.enc@ }
    }
}

impl DeepView for Keys {
    type V = KeysView;

    open spec fn deep_view(&self) -> KeysView {
        self@
    }
}

impl KeysView {
    /// Both keys can have come from a device.
    pub open spec fn usable(self) -> bool {
        protocol::usable_key(self.irk) && protocol::usable_key(self.enc)
    }
}

/// The device that was set up and what to restore when it is released.
pub struct Config {
    pub schema: u8,
    pub adapter: String,
    pub address: String,
    pub name: String,
    pub original_blocked: bool,
    pub managed: bool,
    pub keys: Option<Keys>,
}

#[verifier::ext_equal]
pub struct ConfigView {
    pub schema: u8,
    pub adapter: Seq<char>,
    pub address: Seq<char>,
    pub name: Seq<char>,
    pub original_blocked: bool,
    pub managed: bool,
    pub keys: Option<KeysView>,
}

impl View for Config {
    type V = ConfigView;

    open spec fn view(&self) -> ConfigView {
        ConfigView {
            schema: self.schema,
            adapter: self.adapter@,
            address: self.address@,
            name: self.name@,
            original_blocked: self.original_blocked,
            managed: self.managed,
            keys: self.keys.deep_view(),
        }
    }
}

impl DeepView for Config {
    type V = ConfigView;

    open spec fn deep_view(&self) -> ConfigView {
        self@
    }
}

impl Clone for Config {
    fn clone(&self) -> (r: Self)
        ensures
            r@ == self@,
    {
        Config {
            schema: self.schema,
            adapter: self.adapter.clone(),
            address: self.address.clone(),
            name: self.name.clone(),
            original_blocked: self.original_blocked,
            managed: self.managed,
            keys: self.keys,
        }
    }
}

impl ConfigView {
    /// The device is under the daemon's control and its keys are known.
    pub open spec fn configured(self) -> bool {
        self.managed && self.keys is Some
    }
}

impl Config {
    /// Whether the device is under the daemon's control and its keys are known.
    pub fn configured(&self) -> (r: bool)
        ensures
            r == self@.configured(),
    {
        self.managed && self.keys.is_some()
    }
}

/// A path and a relative name below it.
pub open spec fn below(base: Seq<u8>, name: Seq<char>) -> Seq<u8> {
    if base.len() == 0 || base.last() == 0x2f {
        base + encode_utf8(name)
    } else {
        base.push(0x2f) + encode_utf8(name)
    }
}

/// Whether a path starts at the root.
pub open spec fn absolute(path: Seq<u8>) -> bool {
    path.len() > 0 && path[0] == 0x2f
}

fn join(base: Vec<u8>, name: &str) -> (r: Vec<u8>)
    ensures
        r@ == below(base@, name@),
{
    let mut path = base;
    if path.len() > 0 && path[path.len() - 1] != 0x2f {
        path.push(0x2f);
    }
    let bytes = name.as_bytes();
    let ghost start = path@;
    for i in 0..bytes.len()
        invariant
            bytes@ == encode_utf8(name@),
            path@ =~= start + bytes@.take(i as int),
    {
        path.push(bytes[i]);
    }
    assert(bytes@.take(bytes@.len() as int) =~= bytes@);
    path
}

/// The base directory of configurations.
pub open spec fn config_base(xdg: Option<Seq<u8>>, home: Option<Seq<u8>>) -> Option<Seq<u8>> {
    match (xdg, home) {
        (Some(path), _) => Some(path),
        (None, Some(path)) => Some(below(path, ".config"@)),
        (None, None) => None,
    }
}

/// A path, or what is wrong.
pub open spec fn path_of(result: Result<Vec<u8>, String>) -> Result<Seq<u8>, Seq<char>> {
    match result {
        Ok(path) => Ok(path@),
        Err(message) => Err(message@),
    }
}

/// A name below an absolute directory, or what is said of one that is not.
pub open spec fn rooted(base: Seq<u8>, name: Seq<char>, objection: Seq<char>) -> Result<
    Seq<u8>,
    Seq<char>,
> {
    if absolute(base) {
        Ok(below(base, name))
    } else {
        Err(objection)
    }
}

/// Where the configuration lies.
pub open spec fn config_place(xdg: Option<Seq<u8>>, home: Option<Seq<u8>>) -> Result<
    Seq<u8>,
    Seq<char>,
> {
    match config_base(xdg, home) {
        Some(base) => rooted(
            base,
            "omarchy-airpods/config.json"@,
            "configuration directory must be absolute"@,
        ),
        None => Err("HOME is not set"@),
    }
}

/// Where the lock and the control socket lie.
pub open spec fn runtime_place(base: Option<Seq<u8>>) -> Result<Seq<u8>, Seq<char>> {
    match base {
        Some(base) => rooted(base, "omarchy-airpods"@, "runtime directory must be absolute"@),
        None => Err("XDG_RUNTIME_DIR is not set"@),
    }
}

/// The path of the configuration, given the values of `XDG_CONFIG_HOME` and
/// `HOME`.
pub fn config_path(xdg: Option<Vec<u8>>, home: Option<Vec<u8>>) -> (r: Result<Vec<u8>, String>)
    ensures
        path_of(r) == config_place(xdg.deep_view(), home.deep_view()),
        match (config_base(xdg.deep_view(), home.deep_view()), r) {
            (Some(base), Ok(path)) => absolute(base) && path@ == below(
                base,
                "omarchy-airpods/config.json"@,
            ),
            (Some(base), Err(message)) => !absolute(base) && message@
                == "configuration directory must be absolute"@,
            (None, Ok(_)) => false,
            (None, Err(message)) => message@ == "HOME is not set"@,
        },
{
    let ghost bases = config_base(xdg.deep_view(), home.deep_view());
    let base = match xdg {
        Some(path) => {
            assert(path.deep_view() =~= path@);
            path
        },
        None => match home {
            Some(path) => {
                assert(path.deep_view() =~= path@);
                join(path, ".config")
            },
            None => return Err("HOME is not set".to_owned()),
        },
    };
    assert(bases == Some(base@));
    if base.len() == 0 || base[0] != 0x2f {
        return Err("configuration directory must be absolute".to_owned());
    }
    Ok(join(base, "omarchy-airpods/config.json"))
}

/// The directory of the lock and the control socket, given the value of
/// `XDG_RUNTIME_DIR`.
pub fn runtime_dir(base: Option<Vec<u8>>) -> (r: Result<Vec<u8>, String>)
    ensures
        path_of(r) == runtime_place(base.deep_view()),
        match (base, r) {
            (Some(base), Ok(path)) => absolute(base@) && path@ == below(base@, "omarchy-airpods"@),
            (Some(base), Err(message)) => !absolute(base@) && message@
                == "runtime directory must be absolute"@,
            (None, Ok(_)) => false,
            (None, Err(message)) => message@ == "XDG_RUNTIME_DIR is not set"@,
        },
{
    match base {
        Some(base) => {
            assert(base.deep_view() =~= base@);
            if base.len() == 0 || base[0] != 0x2f {
                return Err("runtime directory must be absolute".to_owned());
            }
            Ok(join(base, "omarchy-airpods"))
        },
        None => Err("XDG_RUNTIME_DIR is not set".to_owned()),
    }
}

/// What was found at the path of a private directory.
pub enum Found {
    Missing,
    Entry { directory: bool, owner: u32 },
    Failed(String),
}

/// A flag, or what is wrong.
pub open spec fn flag_of(result: Result<bool, String>) -> Result<bool, Seq<char>> {
    match result {
        Ok(flag) => Ok(flag),
        Err(message) => Err(message@),
    }
}

/// Whether a private directory has to be created, or why it cannot be used.
pub open spec fn directory_check(found: Found, user: u32) -> Result<bool, Seq<char>> {
    match found {
        Found::Missing => Ok(true),
        Found::Entry { directory, owner } => if directory && owner == user {
            Ok(false)
        } else {
            Err("private directory has unsafe ownership or type"@)
        },
        Found::Failed(reason) => Err(reason@),
    }
}

/// Whether a private file has to be restricted, or why it cannot be used.
pub open spec fn file_check(file: bool, owner: u32, user: u32, mode: u32) -> Result<
    bool,
    Seq<char>,
> {
    if file && owner == user {
        Ok(mode & 0o077 != 0)
    } else {
        Err("private file has unsafe ownership or type"@)
    }
}

/// Whether a private directory has to be created before its permissions are set,
/// given what was found there and who asks. Another user's entry, and one that is
/// no directory, are refused.
pub fn private_dir(found: Found, user: u32) -> (r: Result<bool, String>)
    ensures
        flag_of(r) == directory_check(found, user),
        match (found, r) {
            (Found::Missing, Ok(create)) => create,
            (Found::Entry { directory, owner }, Ok(create)) => !create && directory && owner
                == user,
            (Found::Entry { directory, owner }, Err(message)) => !(directory && owner == user)
                && message@ == "private directory has unsafe ownership or type"@,
            (Found::Failed(reason), Err(message)) => message == reason,
            (Found::Missing, Err(_)) => false,
            (Found::Failed(_), Ok(_)) => false,
        },
{
    match found {
        Found::Missing => Ok(true),
        Found::Entry { directory, owner } => {
            if !directory || owner != user {
                return Err("private directory has unsafe ownership or type".to_owned());
            }
            Ok(false)
        },
        Found::Failed(reason) => Err(reason),
    }
}

/// Whether the permissions of an open private file have to be restricted. Another
/// user's file, and what is no file, are refused.
pub fn private_open(file: bool, owner: u32, user: u32, mode: u32) -> (r: Result<bool, String>)
    ensures
        flag_of(r) == file_check(file, owner, user, mode),
        match r {
            Ok(restrict) => file && owner == user && restrict == (mode & 0o077 != 0),
            Err(message) => !(file && owner == user) && message@
                == "private file has unsafe ownership or type"@,
        },
{
    if !file || owner != user {
        return Err("private file has unsafe ownership or type".to_owned());
    }
    Ok(mode & 0o077 != 0)
}

/// The most bytes that a configuration may have.
pub const MAX_CONFIG: usize = 16384;

/// What is wrong with the size of a configuration, if anything is.
pub open spec fn oversize(length: int) -> Option<Seq<char>> {
    if length > MAX_CONFIG {
        Some("configuration file is too large"@)
    } else {
        None
    }
}

/// Refuses a configuration with too many bytes.
pub fn check_size(length: usize) -> (r: Result<(), String>)
    ensures
        failure(r) == oversize(length as int),
        match r {
            Ok(_) => length <= MAX_CONFIG,
            Err(message) => length > MAX_CONFIG && message@
                == "configuration file is too large"@,
        },
{
    if length > MAX_CONFIG {
        return Err("configuration file is too large".to_owned());
    }
    Ok(())
}

impl ConfigView {
    /// The version is known and both addresses can be read.
    pub open spec fn identified(self) -> bool {
        self.schema == 1 && address::address_of(self.address) is Ok && address::address_of(
            self.adapter,
        ) is Ok
    }

    /// No key that is stored is all zero.
    pub open spec fn keyed(self) -> bool {
        self.keys matches Some(keys) ==> !protocol::all_zero(keys.irk) && !protocol::all_zero(
            keys.enc,
        )
    }
}

/// What is read from a configuration file.
pub open spec fn loaded(stored: Option<Result<ConfigView, ()>>) -> Result<
    Option<ConfigView>,
    Seq<char>,
> {
    match stored {
        None => Ok(None),
        Some(Err(_)) => Err("invalid private configuration"@),
        Some(Ok(config)) => if !config.identified() {
            Err("invalid private configuration identity"@)
        } else if !config.keyed() {
            Err("invalid stored proximity keys; run setup again"@)
        } else {
            Ok(Some(config))
        },
    }
}

/// What is read from a configuration file: nothing where there is none, and
/// otherwise the configuration, if it was understood and can be used. What was
/// wrong with one that was not understood is not said: the file holds keys.
pub fn load(stored: Option<Result<Config, ()>>) -> (r: Result<Option<Config>, String>)
    ensures
        loaded(
            match stored {
                Some(Ok(config)) => Some(Ok(config@)),
                Some(Err(_)) => Some(Err(())),
                None => None,
            },
        ) == match r {
            Ok(Some(config)) => Ok::<Option<ConfigView>, Seq<char>>(Some(config@)),
            Ok(None) => Ok(None),
            Err(message) => Err(message@),
        },
        match (stored, r) {
            (None, Ok(None)) => true,
            (Some(Ok(config)), Ok(Some(result))) => result == config && config@.identified()
                && config@.keyed(),
            (Some(Err(_)), Err(message)) => message@ == "invalid private configuration"@,
            (Some(Ok(config)), Err(message)) => if config@.identified() {
                !config@.keyed() && message@ == "invalid stored proximity keys; run setup again"@
            } else {
                message@ == "invalid private configuration identity"@
            },
            _ => false,
        },
{
    match stored {
        None => Ok(None),
        Some(Err(_)) => Err("invalid private configuration".to_owned()),
        Some(Ok(config)) => {
            if config.schema != 1 || address::parse(config.address.as_str()).is_err()
                || address::parse(config.adapter.as_str()).is_err() {
                return Err("invalid private configuration identity".to_owned());
            }
            if let Some(keys) = config.keys {
                if protocol::is_zero(&keys.irk) || protocol::is_zero(&keys.enc) {
                    return Err("invalid stored proximity keys; run setup again".to_owned());
                }
            }
            Ok(Some(config))
        },
    }
}

/// What is done next to replace the configuration. `Create` makes a new temporary
/// file, `Finished` carries the result.
pub enum Replacing {
    Create,
    Write,
    EndLine,
    Sync,
    Rename,
    SyncDirectory,
    Remove { reason: String },
    Finished(Result<(), String>),
}

#[verifier::ext_equal]
pub enum ReplacingView {
    Create,
    Write,
    EndLine,
    Sync,
    Rename,
    SyncDirectory,
    Remove { reason: Seq<char> },
    Finished(Option<Seq<char>>),
}

/// What went wrong, if anything did.
pub open spec fn failure(result: Result<(), String>) -> Option<Seq<char>> {
    match result {
        Ok(_) => None,
        Err(message) => Some(message@),
    }
}

impl View for Replacing {
    type V = ReplacingView;

    open spec fn view(&self) -> ReplacingView {
        match self {
            Replacing::Create => ReplacingView::Create,
            Replacing::Write => ReplacingView::Write,
            Replacing::EndLine => ReplacingView::EndLine,
            Replacing::Sync => ReplacingView::Sync,
            Replacing::Rename => ReplacingView::Rename,
            Replacing::SyncDirectory => ReplacingView::SyncDirectory,
            Replacing::Remove { reason } => ReplacingView::Remove { reason: reason@ },
            Replacing::Finished(result) => ReplacingView::Finished(failure(*result)),
        }
    }
}

impl ReplacingView {
    /// The step after one that ended in `outcome`. A failure before there is a
    /// temporary file ends the replacement; a later one removes the file first,
    /// and is what is reported whether or not that succeeds.
    pub open spec fn after(self, outcome: Option<Seq<char>>) -> ReplacingView {
        match (self, outcome) {
            (ReplacingView::Create, None) => ReplacingView::Write,
            (ReplacingView::Write, None) => ReplacingView::EndLine,
            (ReplacingView::EndLine, None) => ReplacingView::Sync,
            (ReplacingView::Sync, None) => ReplacingView::Rename,
            (ReplacingView::Rename, None) => ReplacingView::SyncDirectory,
            (ReplacingView::SyncDirectory, None) => ReplacingView::Finished(None),
            (ReplacingView::Create, Some(reason)) => ReplacingView::Finished(Some(reason)),
            (ReplacingView::Remove { reason }, _) => ReplacingView::Finished(Some(reason)),
            (ReplacingView::Finished(result), _) => ReplacingView::Finished(result),
            (_, Some(reason)) => ReplacingView::Remove { reason },
        }
    }
}

/// The step that follows one of replacing the configuration.
pub fn save(step: Replacing, outcome: Result<(), String>) -> (r: Replacing)
    ensures
        r@ == step@.after(failure(outcome)),
{
    match (step, outcome) {
        (Replacing::Create, Ok(_)) => Replacing::Write,
        (Replacing::Write, Ok(_)) => Replacing::EndLine,
        (Replacing::EndLine, Ok(_)) => Replacing::Sync,
        (Replacing::Sync, Ok(_)) => Replacing::Rename,
        (Replacing::Rename, Ok(_)) => Replacing::SyncDirectory,
        (Replacing::SyncDirectory, Ok(_)) => Replacing::Finished(Ok(())),
        (Replacing::Create, Err(reason)) => Replacing::Finished(Err(reason)),
        (Replacing::Remove { reason }, _) => Replacing::Finished(Err(reason)),
        (Replacing::Finished(result), _) => Replacing::Finished(result),
        (_, Err(reason)) => Replacing::Remove { reason },
    }
}

/// The steps that are taken, from the first one on, when they end as `outcomes`
/// says.
pub open spec fn replacement(outcomes: Seq<Option<Seq<char>>>) -> Seq<ReplacingView>
    decreases outcomes.len(),
{
    if outcomes.len() == 0 {
        seq![ReplacingView::Create]
    } else {
        let steps = replacement(outcomes.drop_last());
        steps.push(steps.last().after(outcomes.last()))
    }
}

/// The old configuration is replaced only by one that was written, ended and
/// flushed to disk without failure: the steps before a rename are those three,
/// after the creation, and all of them succeeded.
pub proof fn only_complete_files_replace(outcomes: Seq<Option<Seq<char>>>)
    ensures
        replacement(outcomes).len() == outcomes.len() + 1,
        replacement(outcomes).last() == ReplacingView::Rename ==> {
            &&& outcomes == seq![None::<Seq<char>>, None, None, None]
            &&& replacement(outcomes) == seq![
                ReplacingView::Create,
                ReplacingView::Write,
                ReplacingView::EndLine,
                ReplacingView::Sync,
                ReplacingView::Rename,
            ]
        },
{
    replacement_prefix(outcomes);
    let steps = replacement(outcomes);
    if steps.last() == ReplacingView::Rename {
        assert(outcomes =~= seq![None::<Seq<char>>, None, None, None]);
        assert(steps =~= seq![
            ReplacingView::Create,
            ReplacingView::Write,
            ReplacingView::EndLine,
            ReplacingView::Sync,
            ReplacingView::Rename,
        ]);
    }
}

/// The position of a step in a replacement without failure.
spec fn place(step: ReplacingView) -> Option<int> {
    match step {
        ReplacingView::Create => Some(0),
        ReplacingView::Write => Some(1),
        ReplacingView::EndLine => Some(2),
        ReplacingView::Sync => Some(3),
        ReplacingView::Rename => Some(4),
        ReplacingView::SyncDirectory => Some(5),
        _ => None,
    }
}

proof fn replacement_prefix(outcomes: Seq<Option<Seq<char>>>)
    ensures
        replacement(outcomes).len() == outcomes.len() + 1,
        place(replacement(outcomes).last()) is Some ==> {
            &&& place(replacement(outcomes).last()) == Some(outcomes.len() as int)
            &&& forall|i: int| 0 <= i < outcomes.len() ==> #[trigger] outcomes[i] is None
            &&& forall|i: int|
                0 <= i <= outcomes.len() ==> place(#[trigger] replacement(outcomes)[i]) == Some(i)
        },
    decreases outcomes.len(),
{
    if outcomes.len() > 0 {
        replacement_prefix(outcomes.drop_last());
        let steps = replacement(outcomes);
        if place(steps.last()) is Some {
            let before = replacement(outcomes.drop_last());
            assert(outcomes.last() is None);
            assert forall|i: int| 0 <= i < outcomes.len() implies #[trigger] outcomes[i] is None by {
                if i < outcomes.len() - 1 {
                    assert(outcomes.drop_last()[i] == outcomes[i]);
                }
            }
            assert forall|i: int| 0 <= i <= outcomes.len() implies place(#[trigger] steps[i])
                == Some(i) by {
                if i < outcomes.len() {
                    assert(before[i] == steps[i]);
                }
            }
        }
    }
}

/// A replacement that fails after the temporary file was created removes it
/// before it ends, and one that ends well has replaced the configuration.
pub proof fn replacements_leave_nothing_behind(step: ReplacingView, outcome: Option<Seq<char>>)
    requires
        !(step is Finished),
    ensures
        step.after(outcome) matches ReplacingView::Finished(Some(_)) ==> step is Remove || step
            is Create,
        step.after(outcome) == ReplacingView::Finished(None) ==> step is SyncDirectory,
        outcome is Some && !(step is Create) && !(step is Remove) ==> step.after(outcome)
            is Remove,
{
}

} // verus!
