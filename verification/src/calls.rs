//! What each call hands the C interface, and what becomes of its status.
//!
//! `init` alternates calls and decisions (clear the trusted set, then
//! configure), so it is a step function: the caller performs the action it
//! returns and hands back the call's status.
use vstd::prelude::*;

use vstd::string::StringSliceAdditionalSpecFns;

use crate::der_list::DerList;
use crate::types::{validation_code, Error, Network, Validation};

verus! {

/// A NUL byte in the bytes a string would hand over as a C string.
pub open spec fn holds_nul(bytes: Seq<u8>) -> bool {
    bytes.contains(0u8)
}

/// Whether `bytes` holds a NUL byte, which no C string can carry.
pub fn has_nul(bytes: &[u8]) -> (r: bool)
    ensures
        r == holds_nul(bytes@),
{
    let mut i: usize = 0;
    while i < bytes.len()
        invariant
            0 <= i <= bytes@.len(),
            forall|j: int| 0 <= j < i ==> bytes@[j] != 0u8,
        decreases bytes@.len() - i,
    {
        if bytes[i] == 0u8 {
            assert(bytes@[i as int] == 0u8);
            return true;
        }
        i = i + 1;
    }
    false
}

/// Whether a string can be handed over as a C string: it holds no NUL byte.
pub fn is_c_string(s: &str) -> (r: bool)
    ensures
        r == !holds_nul(s.spec_bytes()),
{
    !has_nul(s.as_bytes())
}

/// A network whose proxy strings (if any) can be handed over as C strings.
pub open spec fn proxy_ok(network: Network) -> bool {
    match network.proxy {
        Some((url, credentials)) => !holds_nul(url.spec_bytes()) && !holds_nul(
            credentials.spec_bytes(),
        ),
        None => true,
    }
}

/// The C `int` flag for a boolean.
pub open spec fn flag(b: bool) -> i32 {
    if b {
        1
    } else {
        0
    }
}

/// The configuration the C side's `init` receives, flags as C `int`s.
#[derive(Debug, Clone, Copy, PartialEq, Eq)]
pub struct InitConfig<'a> {
    pub offline: i32,
    pub proxy: Option<(&'a str, &'a str)>,
    pub connect_timeout_ms: i32,
    pub total_timeout_ms: i32,
    pub only_crl: i32,
}

/// The configuration a network gives: flags as 1 or 0, the rest as it is.
pub open spec fn config_of<'a>(network: Network<'a>) -> InitConfig<'a> {
    InitConfig {
        offline: flag(network.offline),
        proxy: network.proxy,
        connect_timeout_ms: network.connect_timeout_ms,
        total_timeout_ms: network.total_timeout_ms,
        only_crl: flag(network.only_crl),
    }
}

/// Where a run of `init` stands: nothing called yet, the trusted set just
/// cleared, or the library just configured.
#[derive(Debug, Clone, Copy, PartialEq, Eq, Structural)]
pub enum InitStage {
    Start,
    Cleared,
    Configured,
}

/// What the caller does next in a run of `init`.
#[derive(Debug, PartialEq, Eq)]
pub enum InitAction<'a, 'c> {
    /// Take the store exclusively, hold it until the run finishes, and clear
    /// the trusted set; report its status at the stage `Cleared`.
    ClearTrusted,
    /// Configure the library with this configuration and these trusted
    /// certificates, which become the whole trusted set; report its status at
    /// the stage `Configured`.
    Configure(InitConfig<'a>, &'c DerList<'a>),
    /// The run is over, with this result.
    Finish(Result<(), Error>),
}

/// The next action of a run of `init` on `network` with the trusted
/// certificates `certs`, at `stage`, where `ret` is the status of the call that
/// led there (ignored at `Start`).
pub open spec fn init_action<'a, 'c>(
    network: Network<'a>,
    certs: &'c DerList<'a>,
    stage: InitStage,
    ret: i32,
) -> InitAction<'a, 'c> {
    match stage {
        InitStage::Start => if proxy_ok(network) {
            InitAction::ClearTrusted
        } else {
            InitAction::Finish(Err(Error::BadPath))
        },
        InitStage::Cleared => if ret != 0 {
            InitAction::Finish(Err(Error::Configure(ret)))
        } else {
            InitAction::Configure(config_of(network), certs)
        },
        InitStage::Configured => if ret == 0 {
            InitAction::Finish(Ok(()))
        } else {
            InitAction::Finish(Err(Error::Configure(ret)))
        },
    }
}

/// The result of a whole run of `init` whose clear returned `clear_ret` and
/// whose configuration returned `init_ret`.
pub open spec fn init_result(network: Network, clear_ret: i32, init_ret: i32) -> Result<(), Error> {
    if !proxy_ok(network) {
        Err(Error::BadPath)
    } else if clear_ret != 0 {
        Err(Error::Configure(clear_ret))
    } else if init_ret != 0 {
        Err(Error::Configure(init_ret))
    } else {
        Ok(())
    }
}

/// One step of `init`: given where the run stands and the status of the last
/// call, what to do next.
pub fn init_step<'a, 'c>(
    network: &Network<'a>,
    certs: &'c DerList<'a>,
    stage: InitStage,
    ret: i32,
) -> (a: InitAction<'a, 'c>)
    ensures
        a == init_action(*network, certs, stage, ret),
        stage == InitStage::Start ==> (a == InitAction::ClearTrusted <==> match network.proxy {
            Some((url, credentials)) => !url.spec_bytes().contains(0u8)
                && !credentials.spec_bytes().contains(0u8),
            None => true,
        }),
        stage == InitStage::Cleared && ret == 0 ==> (a matches InitAction::Configure(cfg, list) && (
        cfg.offline == 1 <==> network.offline) && (cfg.offline == 0 <==> !network.offline) && (
        cfg.only_crl == 1 <==> network.only_crl) && (cfg.only_crl == 0 <==> !network.only_crl)
            && cfg.proxy == network.proxy && cfg.connect_timeout_ms == network.connect_timeout_ms
            && cfg.total_timeout_ms == network.total_timeout_ms && list == certs),
        stage == InitStage::Start ==> (a == InitAction::ClearTrusted || a == InitAction::Finish(
            Err(Error::BadPath),
        )),
        stage == InitStage::Cleared && ret != 0 ==> a == InitAction::Finish(
            Err(Error::Configure(ret)),
        ),
        stage == InitStage::Configured ==> a == InitAction::Finish(
            if ret == 0 {
                Ok(())
            } else {
                Err(Error::Configure(ret))
            },
        ),
{
    match stage {
        InitStage::Start => {
            let ok = match network.proxy {
                Some((url, credentials)) => is_c_string(url) && is_c_string(credentials),
                None => true,
            };
            if ok {
                InitAction::ClearTrusted
            } else {
                InitAction::Finish(Err(Error::BadPath))
            }
        },
        InitStage::Cleared => {
            if ret != 0 {
                InitAction::Finish(Err(Error::Configure(ret)))
            } else {
                InitAction::Configure(
                    InitConfig {
                        offline: if network.offline {
                            1
                        } else {
                            0
                        },
                        proxy: network.proxy,
                        connect_timeout_ms: network.connect_timeout_ms,
                        total_timeout_ms: network.total_timeout_ms,
                        only_crl: if network.only_crl {
                            1
                        } else {
                            0
                        },
                    },
                    certs,
                )
            }
        },
        InitStage::Configured => {
            if ret == 0 {
                InitAction::Finish(Ok(()))
            } else {
                InitAction::Finish(Err(Error::Configure(ret)))
            }
        },
    }
}

/// The stage a run of `init` is at once the caller has performed `action`:
/// `Cleared` after the clear, `Configured` after the configuration, and none
/// once the run has finished.
pub open spec fn stage_after(action: InitAction) -> Option<InitStage> {
    match action {
        InitAction::ClearTrusted => Some(InitStage::Cleared),
        InitAction::Configure(_, _) => Some(InitStage::Configured),
        InitAction::Finish(_) => None,
    }
}

/// Where a run of `init` stands once the caller has performed `action`; the
/// caller reports the status of that call at this stage, or, at `None`, stops.
pub fn next_stage(action: &InitAction) -> (s: Option<InitStage>)
    ensures
        s == stage_after(*action),
{
    match action {
        InitAction::ClearTrusted => Some(InitStage::Cleared),
        InitAction::Configure(_, _) => Some(InitStage::Configured),
        InitAction::Finish(_) => None,
    }
}

/// A run of `init` goes `Start`, then (unless a proxy string holds a NUL)
/// clears the trusted set, then (only if the clear returned 0) configures the
/// library with exactly the certificates of the call, and ends with
/// `init_result`. So the trusted set a successful run leaves is stated afresh:
/// the configuration is never issued without a successful clear before it,
/// and it carries the call's certificates and no others. The stage each action
/// leads to (`stage_after`) is the one this run goes through, and only a
/// finished run leads nowhere.
pub proof fn lemma_init_run(network: Network, certs: &DerList, clear_ret: i32, init_ret: i32)
    ensures
        proxy_ok(network) ==> init_action(network, certs, InitStage::Start, 0)
            == InitAction::ClearTrusted,
        !proxy_ok(network) ==> init_action(network, certs, InitStage::Start, 0)
            == InitAction::Finish(init_result(network, clear_ret, init_ret)),
        proxy_ok(network) && clear_ret != 0 ==> init_action(
            network,
            certs,
            InitStage::Cleared,
            clear_ret,
        ) == InitAction::Finish(init_result(network, clear_ret, init_ret)),
        proxy_ok(network) && clear_ret == 0 ==> init_action(
            network,
            certs,
            InitStage::Cleared,
            clear_ret,
        ) == InitAction::Configure(config_of(network), certs) && init_action(
            network,
            certs,
            InitStage::Configured,
            init_ret,
        ) == InitAction::Finish(init_result(network, clear_ret, init_ret)),
        forall|stage: InitStage, ret: i32|
            #![trigger init_action(network, certs, stage, ret)]
            init_action(network, certs, stage, ret) is Configure ==> stage == InitStage::Cleared
                && ret == 0,
        forall|stage: InitStage, ret: i32|
            #![trigger init_action(network, certs, stage, ret)]
            init_action(network, certs, stage, ret) matches InitAction::Configure(_, list) ==> list@
                == certs@,
        init_result(network, clear_ret, init_ret) is Ok <==> (proxy_ok(network) && clear_ret == 0
            && init_ret == 0),
        proxy_ok(network) ==> stage_after(init_action(network, certs, InitStage::Start, 0)) == Some(
            InitStage::Cleared,
        ),
        proxy_ok(network) && clear_ret == 0 ==> stage_after(
            init_action(network, certs, InitStage::Cleared, clear_ret),
        ) == Some(InitStage::Configured) && stage_after(
            init_action(network, certs, InitStage::Configured, init_ret),
        ) is None,
        forall|stage: InitStage, ret: i32|
            #![trigger init_action(network, certs, stage, ret)]
            stage_after(init_action(network, certs, stage, ret)) is None <==> init_action(
                network,
                certs,
                stage,
                ret,
            ) is Finish,
{
}

/// The configuration a run of `init` hands the C side, once the clear
/// returned 0, is the caller's network as it stands: online exactly when the
/// network is online, CRL-only exactly when the network asks for it (each as a
/// C flag, 1 or 0), the proxy and both timeouts unchanged, whatever the other
/// fields hold; and the certificate list is the call's own.
pub proof fn lemma_configuration_is_the_network(network: Network, certs: &DerList)
    ensures
        init_action(network, certs, InitStage::Cleared, 0) matches InitAction::Configure(cfg, list)
            && (cfg.offline == 1 <==> network.offline) && (cfg.offline == 0 <==> !network.offline)
            && (cfg.only_crl == 1 <==> network.only_crl) && (cfg.only_crl == 0 <==> !network.only_crl)
            && cfg.proxy == network.proxy && cfg.connect_timeout_ms == network.connect_timeout_ms
            && cfg.total_timeout_ms == network.total_timeout_ms && list == certs && list@ == certs@,
{
}

/// A run of `init` refuses a proxy exactly when its URL or its credentials
/// hold a NUL byte, which no C string can carry: any other proxy (an empty
/// string among them), and no proxy at all, goes on to clear the trusted set.
pub proof fn lemma_start_refuses_only_nul(network: Network, certs: &DerList, ret: i32)
    ensures
        init_action(network, certs, InitStage::Start, ret) == InitAction::ClearTrusted
            || init_action(network, certs, InitStage::Start, ret) == InitAction::Finish(
            Err(Error::BadPath),
        ),
        init_action(network, certs, InitStage::Start, ret) == InitAction::Finish(
            Err(Error::BadPath),
        ) <==> (network.proxy matches Some((url, credentials)) && (url.spec_bytes().contains(0u8)
            || credentials.spec_bytes().contains(0u8))),
{
}

/// The status of adding trusted certificates: 0 succeeds, any other code is
/// passed on as `AddTrusted`.
pub fn add_trusted_outcome(ret: i32) -> (r: Result<(), Error>)
    ensures
        r == (if ret == 0 {
            Ok::<(), Error>(())
        } else {
            Err::<(), Error>(Error::AddTrusted(ret))
        }),
{
    if ret == 0 {
        Ok(())
    } else {
        Err(Error::AddTrusted(ret))
    }
}

/// What a verification of an envelope held in memory hands the C side.
#[derive(Debug, Clone, Copy)]
pub struct VerifyRequest<'a> {
    pub sign: &'a [u8],
    /// `None` for an attached envelope; the signed data for a detached one.
    pub data: Option<&'a [u8]>,
    /// The length of the signed data, 0 when attached.
    pub data_len: usize,
    pub validation_code: i32,
}

/// The request for `sign`, with `data == None` for an attached envelope and
/// `Some(bytes)` for a detached one.
pub fn verify_request<'a>(sign: &'a [u8], data: Option<&'a [u8]>, validation: Validation) -> (r:
    VerifyRequest<'a>)
    ensures
        r.sign@ == sign@,
        r.data == data,
        r.data_len == (match data {
            Some(d) => d@.len(),
            None => 0,
        }),
        r.validation_code == validation_code(validation),
{
    let data_len = match data {
        Some(d) => d.len(),
        None => 0,
    };
    VerifyRequest { sign, data, data_len, validation_code: validation.to_code() }
}

/// What a verification against a data file hands the C side.
#[derive(Debug, Clone, Copy)]
pub struct FileRequest<'a> {
    pub sign: &'a [u8],
    pub data_path: &'a str,
    pub validation_code: i32,
}

/// The request for `sign` against the file at `data_path`; `BadPath` exactly
/// when the path holds a NUL byte, which no C string can carry.
pub fn verify_file_request<'a>(sign: &'a [u8], data_path: &'a str, validation: Validation) -> (r:
    Result<FileRequest<'a>, Error>)
    ensures
        r is Err <==> holds_nul(data_path.spec_bytes()),
        r matches Err(e) ==> e == Error::BadPath,
        r matches Ok(q) ==> q.sign@ == sign@ && q.data_path == data_path && q.validation_code
            == validation_code(validation),
{
    if !is_c_string(data_path) {
        return Err(Error::BadPath);
    }
    Ok(FileRequest { sign, data_path, validation_code: validation.to_code() })
}

} // verus!
