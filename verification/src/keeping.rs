//! Where the configuration lies, what of it is believed, and how it is kept and used
//! while no daemon runs.
use crate::address;
use crate::recovery::RecoveryView;
use crate::storage::{
    below, config_place, directory_check, file_check, loaded, oversize, runtime_place, ConfigView,
    Found, ReplacingView,
};
use vstd::prelude::*;
use vstd::utf8::encode_utf8;

verus! {

/// A path below a directory is that directory, one slash, and the name.
pub proof fn paths_have_one_slash(base: Seq<u8>, name: Seq<char>)
    requires
        base.len() > 0,
    ensures
        base.last() != 47 ==> below(base, name) == base + seq![47u8] + encode_utf8(name),
        base.last() == 47 ==> below(base, name) == base + encode_utf8(name),
        base.last() != 47 ==> below(base, name) == below(base + seq![47u8], name),
{
    assert((base + seq![47u8]).last() == 47);
    assert(base.push(47) =~= base + seq![47u8]);
}

/// The configuration lies below the directory that is set for configurations, or below
/// `.config` in the home directory where none is set; either has to begin at the root.
pub proof fn the_configuration_has_its_place(xdg: Seq<u8>, home: Seq<u8>, any: Option<Seq<u8>>)
    ensures
        config_place(Some(xdg), any) == if xdg.len() > 0 && xdg[0] == 47 {
            Ok::<Seq<u8>, Seq<char>>(below(xdg, "omarchy-airpods/config.json"@))
        } else {
            Err("configuration directory must be absolute"@)
        },
        home.len() > 0 && home[0] == 47 ==> config_place(None, Some(home)) == Ok::<
            Seq<u8>,
            Seq<char>,
        >(below(below(home, ".config"@), "omarchy-airpods/config.json"@)),
        home.len() > 0 && home[0] != 47 ==> config_place(None, Some(home)) == Err::<
            Seq<u8>,
            Seq<char>,
        >("configuration directory must be absolute"@),
        config_place(None, None) == Err::<Seq<u8>, Seq<char>>("HOME is not set"@),
{
    if home.len() > 0 {
        assert(below(home, ".config"@)[0] == home[0]);
    }
}

/// The lock and the socket lie below the runtime directory, which has to begin at the
/// root.
pub proof fn the_socket_has_its_place(base: Seq<u8>)
    ensures
        runtime_place(Some(base)) == if base.len() > 0 && base[0] == 47 {
            Ok::<Seq<u8>, Seq<char>>(below(base, "omarchy-airpods"@))
        } else {
            Err("runtime directory must be absolute"@)
        },
        runtime_place(None) == Err::<Seq<u8>, Seq<char>>("XDG_RUNTIME_DIR is not set"@),
{
}

/// A private directory is created where there is none, and used where it is a directory
/// of the user; a private file is used if it is a file of the user, and restricted if
/// anybody else has any right to it. Nothing of another user is used, and no
/// configuration of more than 16384 bytes.
pub proof fn private_things_belong_to_the_user(
    directory: bool,
    file: bool,
    owner: u32,
    user: u32,
    mode: u32,
    reason: String,
    size: int,
)
    ensures
        directory_check(Found::Missing, user) == Ok::<bool, Seq<char>>(true),
        directory_check(Found::Failed(reason), user) == Err::<bool, Seq<char>>(reason@),
        directory_check(Found::Entry { directory, owner }, user) is Ok <==> directory && owner
            == user,
        directory_check(Found::Entry { directory, owner }, user) != Ok::<bool, Seq<char>>(true),
        directory_check(Found::Entry { directory, owner }, user) matches Err(message) ==> message
            == "private directory has unsafe ownership or type"@,
        file_check(file, owner, user, mode) is Ok <==> file && owner == user,
        file_check(file, owner, user, mode) matches Ok(restrict) ==> (restrict <==> mode % 64 != 0),
        file_check(file, owner, user, mode) matches Err(message) ==> message
            == "private file has unsafe ownership or type"@,
        oversize(size) is None <==> size <= 16384,
        oversize(size) matches Some(message) ==> message == "configuration file is too large"@,
{
    assert(mode & 0o077 == mode % 64) by (bit_vector);
}

/// A stored configuration is believed exactly if its version is 1, both addresses can be
/// read, and no key is all zero; and then it is taken as it is.
pub proof fn sound_configurations_are_believed(config: ConfigView)
    ensures
        ({
            let known = config.schema == 1 && address::parsed(config.address) is Ok
                && address::parsed(config.adapter) is Ok;
            let usable = config.keys matches Some(keys) ==> {
                &&& exists|i: int| 0 <= i < keys.irk.len() && keys.irk[i] != 0
                &&& exists|i: int| 0 <= i < keys.enc.len() && keys.enc[i] != 0
            };
            loaded(Some(Ok(config))) == if !known {
                Err::<Option<ConfigView>, Seq<char>>("invalid private configuration identity"@)
            } else if !usable {
                Err("invalid stored proximity keys; run setup again"@)
            } else {
                Ok(Some(config))
            }
        }),
        loaded(None) == Ok::<Option<ConfigView>, Seq<char>>(None),
        loaded(Some(Err(()))) == Err::<Option<ConfigView>, Seq<char>>(
            "invalid private configuration"@,
        ),
{
}

/// A device counts as set up exactly if it is under control and its keys are known.
pub proof fn set_up_is_controlled_and_known(config: ConfigView)
    ensures
        config.configured() <==> config.managed && config.keys is Some,
{
}

/// A replacement in which nothing fails goes its whole way and ends well.
pub proof fn a_replacement_goes_its_way()
    ensures
        ({
            let write = ReplacingView::Create.after(None);
            let end_line = write.after(None);
            let sync = end_line.after(None);
            let rename = sync.after(None);
            let directory = rename.after(None);
            &&& write is Write
            &&& end_line is EndLine
            &&& sync is Sync
            &&& rename is Rename
            &&& directory is SyncDirectory
            &&& directory.after(None) == ReplacingView::Finished(None)
        }),
{
}

/// What fails first is what a replacement is reported to have failed for, whether or
/// not the temporary file could be removed after that.
pub proof fn a_failed_replacement_says_why(
    step: ReplacingView,
    reason: Seq<char>,
    removal: Option<Seq<char>>,
)
    ensures
        step is Create ==> step.after(Some(reason)) == ReplacingView::Finished(Some(reason)),
        step is Write || step is EndLine || step is Sync || step is Rename || step is SyncDirectory
            ==> {
            &&& step.after(Some(reason)) == (ReplacingView::Remove { reason })
            &&& step.after(Some(reason)).after(removal) == ReplacingView::Finished(Some(reason))
        },
        step is Finished ==> step.after(removal) == step,
{
}

/// Without a daemon a device under control is released in full: the adapter is found,
/// the setting that it had before is restored, it is stored that it was given up with
/// everything else as it was, and that is all.
pub proof fn a_recovery_releases_the_device(config: ConfigView, address: Seq<u8>)
    requires
        config.managed,
        address::parsed(config.address) == Ok::<Seq<u8>, Seq<char>>(address),
    ensures
        ({
            let open = RecoveryView::start(Some(config), true);
            let find = open.after(None);
            let restore = find.after(None);
            let save = restore.after(None);
            &&& open is Open
            &&& find is Find
            &&& restore == (RecoveryView::Restore { address, config })
            &&& save matches RecoveryView::Save { address: a, config: stored } && a == address && {
                &&& !stored.managed
                &&& stored.original_blocked == config.original_blocked
                &&& stored.keys == config.keys
                &&& stored.address == config.address
                &&& stored.adapter == config.adapter
                &&& stored.name == config.name
                &&& stored.schema == config.schema
            }
            &&& save.after(None) == RecoveryView::Finished(None)
        }),
{
}

/// Without a daemon a device under control is guarded by a block and nothing else, and
/// one that is not under control is left alone.
pub proof fn a_recovery_guards_the_device(
    config: ConfigView,
    release: bool,
    outcome: Option<Seq<char>>,
)
    ensures
        config.managed ==> {
            let open = RecoveryView::start(Some(config), false);
            let find = open.after(None);
            let block = find.after(None);
            &&& open is Open
            &&& find is Find
            &&& block == (RecoveryView::Block { config })
            &&& block.after(outcome) == RecoveryView::Finished(outcome)
        },
        !config.managed ==> RecoveryView::start(Some(config), release) == RecoveryView::Finished(
            None,
        ),
        RecoveryView::start(None, release) == RecoveryView::Finished(None),
{
}

/// A recovery that fails says why; where it cannot be stored that the device was given
/// up, it is blocked again first.
pub proof fn a_failed_recovery_says_why(
    config: ConfigView,
    release: bool,
    address: Seq<u8>,
    reason: Seq<char>,
    failure: Seq<char>,
    outcome: Option<Seq<char>>,
)
    ensures
        (RecoveryView::Open { config, release }).after(Some(reason)) == RecoveryView::Finished(
            Some("BlueZ is unavailable; device guard cannot be changed: "@ + reason),
        ),
        (RecoveryView::Find { config, release }).after(Some(reason)) == RecoveryView::Finished(
            Some(reason),
        ),
        address::parsed(config.address) matches Err(message) ==> (RecoveryView::Find {
            config,
            release: true,
        }).after(None) == RecoveryView::Finished(Some(message)),
        (RecoveryView::Restore { address, config }).after(Some(reason)) == RecoveryView::Finished(
            Some(reason),
        ),
        ({
            let again = (RecoveryView::Save { address, config }).after(Some(reason));
            &&& again == (RecoveryView::Reblock { address, reason })
            &&& again.after(None) == RecoveryView::Finished(Some(reason))
            &&& again.after(Some(failure)) == RecoveryView::Finished(
                Some("release save failed and guard could not be restored: "@ + failure),
            )
        }),
        RecoveryView::Finished(outcome).after(Some(reason)) == RecoveryView::Finished(outcome),
{
}

} // verus!
