//! Raw key material: where it is read from, the check on a key file's
//! permissions before the file is read, and the zeroing of the buffers.
//!
//! Files and the environment are read by the caller. The loader decides what
//! is read and in which order, and holds what was read. The buffers are
//! zeroed on every path on which the loader or the material gives them up.

use vstd::prelude::*;
use vstd::string::StringExecFns;
use zeroize::Zeroize;
use crate::error::{EngineError, EngineResult, ErrorModel};
use crate::signer::{Signer, SignerModel};

verus! {

/// `zeroize::Zeroize::zeroize` on a `Vec<u8>`: writes zero over the spare
/// capacity and over every byte, then clears the vector, which is empty
/// afterwards. Writing zeros and clearing a vector of bytes does not panic.
#[verifier::external_body]
pub(crate) fn zeroize_bytes(buffer: &mut Vec<u8>)
    ensures
        final(buffer)@.len() == 0,
    opens_invariants none
    no_unwind
{
    buffer.zeroize();
}

/// The permission bits of group and others.
pub const GROUP_AND_OTHERS: u32 = 0o077;

/// A file mode that grants nothing to group and others.
pub open spec fn mode_is_private(mode: u32) -> bool {
    mode & 0o077 == 0
}

/// The message for a key file that group or others can reach.
pub open spec fn insecure_message(path: Seq<char>) -> Seq<char> {
    "Insecure key file permissions for "@ + path + " (expected 0600 or stricter)"@
}

/// Checks the mode of the private key file at `path`: any permission for
/// group or others is refused.
pub fn check_private_key_permissions(path: &str, mode: u32) -> (r: EngineResult<()>)
    ensures
        mode_is_private(mode) ==> r is Ok,
        !mode_is_private(mode) ==> (r matches Err(e) && e@ == ErrorModel::Config(
            insecure_message(path@),
        )),
{
    if (mode & GROUP_AND_OTHERS) != 0 {
        return Err(
            EngineError::Config(
                "Insecure key file permissions for ".to_string().concat(path).concat(
                    " (expected 0600 or stricter)",
                ),
            ),
        );
    }
    Ok(())
}

/// A mode with owner bits only is private, and one with any of the nine low
/// bits for group or others is not: `0600` passes, `0640` and `0604` do not.
pub proof fn lemma_private_modes()
    ensures
        mode_is_private(0o600),
        mode_is_private(0o400),
        !mode_is_private(0o640),
        !mode_is_private(0o604),
        !mode_is_private(0o644),
        forall|mode: u32| mode_is_private(mode) <==> (mode & 0o070 == 0 && mode & 0o007 == 0),
{
    assert(0o600u32 & 0o077 == 0) by (bit_vector);
    assert(0o400u32 & 0o077 == 0) by (bit_vector);
    assert(0o640u32 & 0o077 != 0) by (bit_vector);
    assert(0o604u32 & 0o077 != 0) by (bit_vector);
    assert(0o644u32 & 0o077 != 0) by (bit_vector);
    assert forall|mode: u32| mode_is_private(mode) <==> (mode & 0o070 == 0 && mode & 0o007
        == 0) by {
        assert((mode & 0o077 == 0) <==> (mode & 0o070 == 0 && mode & 0o007 == 0)) by (bit_vector);
    }
}

/// A certificate chain and its private key, as bytes. The bytes are held
/// for the one who builds a signer from them and for nobody else.
pub struct KeyMaterial {
    cert: Vec<u8>,
    key: Vec<u8>,
}

impl KeyMaterial {
    /// The bytes of the certificate chain.
    pub closed spec fn cert_bytes(self) -> Seq<u8> {
        self.cert@
    }

    /// The bytes of the private key.
    pub closed spec fn key_bytes(self) -> Seq<u8> {
        self.key@
    }

    /// Both buffers are zeroed and empty.
    pub open spec fn wiped(self) -> bool {
        self.cert_bytes().len() == 0 && self.key_bytes().len() == 0
    }

    /// Takes a certificate chain and a private key into custody.
    pub fn new(cert: Vec<u8>, key: Vec<u8>) -> (material: KeyMaterial)
        ensures
            material.cert_bytes() == cert@,
            material.key_bytes() == key@,
    {
        KeyMaterial { cert, key }
    }

    /// Whether both buffers are zeroed and empty.
    pub fn is_wiped(&self) -> (b: bool)
        ensures
            b == self.wiped(),
    {
        self.cert.len() == 0 && self.key.len() == 0
    }

    /// Zeroes both buffers and leaves them empty.
    pub fn wipe(&mut self)
        ensures
            final(self).wiped(),
    {
        zeroize_bytes(&mut self.cert);
        zeroize_bytes(&mut self.key);
    }

    /// Hands the material to `build`, once, and zeroes it afterwards, whether
    /// `build` succeeded or failed. The result is what `build` returned.
    pub fn build_signer<T, F: FnOnce(&Vec<u8>, &Vec<u8>) -> EngineResult<T>>(
        &mut self,
        build: F,
    ) -> (r: EngineResult<T>)
        requires
            forall|cert: &Vec<u8>, key: &Vec<u8>|
                cert@ == old(self).cert_bytes() && key@ == old(self).key_bytes()
                    ==> #[trigger] build.requires((cert, key)),
        ensures
            exists|cert: &Vec<u8>, key: &Vec<u8>|
                cert@ == old(self).cert_bytes() && key@ == old(self).key_bytes()
                    && #[trigger] build.ensures((cert, key), r),
            final(self).wiped(),
    {
        let r = build(&self.cert, &self.key);
        self.wipe();
        r
    }
}

impl Drop for KeyMaterial {
    /// Zeroes both buffers when the material is given up, on whatever path.
    fn drop(&mut self)
        opens_invariants none
        no_unwind
    {
        zeroize_bytes(&mut self.cert);
        zeroize_bytes(&mut self.key);
    }
}

/// Whose credential is loaded, which decides how a failure is worded.
#[derive(Debug, Clone, Copy, PartialEq, Eq, Structural)]
pub enum CredentialRole {
    /// The credential of the primary signature.
    Main,
    /// The primary's credential, loaded again for the identity assertion.
    SharedWithMain,
    /// A credential of the identity assertion's own.
    Identity,
}

/// Where a load stands.
#[derive(Debug, Clone, Copy, PartialEq, Eq, Structural)]
pub enum LoadPhase {
    /// The mode of the key file has been asked for.
    CheckingPermissions,
    /// The certificate has been asked for.
    ReadingCert,
    /// The key has been asked for.
    ReadingKey,
    /// Both are held.
    Loaded,
    /// The load has failed, and nothing is held.
    Failed,
}

/// What the loader asks the caller to do next.
#[derive(Debug, Clone)]
pub enum LoadRequest {
    /// Report the permission bits of this file, without reading it.
    StatKeyFile(String),
    /// Read this file fully.
    ReadFile(String),
    /// Read this environment variable.
    ReadEnv(String),
    /// Nothing: the load is over.
    Finished,
}

/// What the caller reports to the loader.
#[derive(Debug, Clone)]
pub enum LoadEvent {
    /// The mode of the file that was asked about.
    Mode(u32),
    /// The bytes of the file or variable that was asked for.
    Content(Vec<u8>),
    /// What was asked for could not be had, with the system's message.
    Unavailable(String),
}

pub enum RequestModel {
    StatKeyFile(Seq<char>),
    ReadFile(Seq<char>),
    ReadEnv(Seq<char>),
    Finished,
}

pub enum LoadEventModel {
    Mode(u32),
    Content(Seq<u8>),
    Unavailable(Seq<char>),
}

impl View for LoadRequest {
    type V = RequestModel;

    open spec fn view(&self) -> RequestModel {
        match self {
            LoadRequest::StatKeyFile(p) => RequestModel::StatKeyFile(p@),
            LoadRequest::ReadFile(p) => RequestModel::ReadFile(p@),
            LoadRequest::ReadEnv(v) => RequestModel::ReadEnv(v@),
            LoadRequest::Finished => RequestModel::Finished,
        }
    }
}

impl View for LoadEvent {
    type V = LoadEventModel;

    open spec fn view(&self) -> LoadEventModel {
        match self {
            LoadEvent::Mode(m) => LoadEventModel::Mode(*m),
            LoadEvent::Content(b) => LoadEventModel::Content(b@),
            LoadEvent::Unavailable(m) => LoadEventModel::Unavailable(m@),
        }
    }
}

/// The state of a load, as mathematical values.
pub struct LoaderModel {
    pub source: SignerModel,
    pub role: CredentialRole,
    pub phase: LoadPhase,
    /// The key file's mode was seen and grants nothing to group and others.
    pub cleared: bool,
    pub cert: Seq<u8>,
    pub key: Seq<u8>,
    pub failure: Option<ErrorModel>,
}

/// The words for the certificate or the key of a role, in the message for a
/// file that cannot be read.
pub open spec fn file_words(role: CredentialRole, is_key: bool) -> Seq<char> {
    match role {
        CredentialRole::Main => if is_key {
            "key"@
        } else {
            "cert"@
        },
        CredentialRole::SharedWithMain => if is_key {
            "main key"@
        } else {
            "main cert"@
        },
        CredentialRole::Identity => if is_key {
            "CAWG key"@
        } else {
            "CAWG cert"@
        },
    }
}

/// The words for the certificate or the key of a role, at the start of the
/// message for a variable that is not set.
pub open spec fn env_words(role: CredentialRole, is_key: bool) -> Seq<char> {
    match role {
        CredentialRole::Main => if is_key {
            "Key"@
        } else {
            "Cert"@
        },
        CredentialRole::SharedWithMain => if is_key {
            "Main key"@
        } else {
            "Main cert"@
        },
        CredentialRole::Identity => if is_key {
            "CAWG key"@
        } else {
            "CAWG cert"@
        },
    }
}

/// The failure for a certificate or key that could not be had. For a file it
/// carries the system's message; for a variable it names the variable, and
/// never a value.
pub open spec fn unavailable(
    source: SignerModel,
    role: CredentialRole,
    is_key: bool,
    detail: Seq<char>,
) -> ErrorModel {
    match source {
        SignerModel::Local { cert_path, key_path } => ErrorModel::Config(
            "Failed to read "@ + file_words(role, is_key) + ": "@ + detail,
        ),
        SignerModel::Env { cert_var, key_var } => ErrorModel::Config(
            env_words(role, is_key) + " env var not found: "@ + (if is_key {
                key_var
            } else {
                cert_var
            }),
        ),
    }
}

/// The failure for a key file whose mode could not be had.
pub open spec fn stat_failed(detail: Seq<char>) -> ErrorModel {
    ErrorModel::Config("Failed to stat key file: "@ + detail)
}

/// The state in which a load starts. The mode of the key is checked first
/// for a pair of files on a platform with POSIX permissions; elsewhere the
/// load starts with the certificate.
pub open spec fn load_start(source: SignerModel, role: CredentialRole, check_permissions: bool)
    -> LoaderModel {
    LoaderModel {
        source,
        role,
        phase: if source is Local && check_permissions {
            LoadPhase::CheckingPermissions
        } else {
            LoadPhase::ReadingCert
        },
        cleared: false,
        cert: Seq::empty(),
        key: Seq::empty(),
        failure: None,
    }
}

/// A failed load: nothing is held.
pub open spec fn load_failed(s: LoaderModel, e: ErrorModel) -> LoaderModel {
    LoaderModel {
        phase: LoadPhase::Failed,
        cert: Seq::empty(),
        key: Seq::empty(),
        failure: Some(e),
        ..s
    }
}

/// The state after `event`. An event that does not answer what the loader
/// asked for leaves the state as it is.
pub open spec fn load_step(s: LoaderModel, event: LoadEventModel) -> LoaderModel {
    match (s.phase, event) {
        (LoadPhase::CheckingPermissions, LoadEventModel::Mode(mode)) => if mode_is_private(mode) {
            LoaderModel { phase: LoadPhase::ReadingCert, cleared: true, ..s }
        } else {
            load_failed(
                s,
                ErrorModel::Config(
                    insecure_message(
                        match s.source {
                            SignerModel::Local { cert_path, key_path } => key_path,
                            SignerModel::Env { cert_var, key_var } => key_var,
                        },
                    ),
                ),
            )
        },
        (LoadPhase::CheckingPermissions, LoadEventModel::Unavailable(m)) => load_failed(
            s,
            stat_failed(m),
        ),
        (LoadPhase::ReadingCert, LoadEventModel::Content(bytes)) => LoaderModel {
            phase: LoadPhase::ReadingKey,
            cert: bytes,
            ..s
        },
        (LoadPhase::ReadingCert, LoadEventModel::Unavailable(m)) => load_failed(
            s,
            unavailable(s.source, s.role, false, m),
        ),
        (LoadPhase::ReadingKey, LoadEventModel::Content(bytes)) => LoaderModel {
            phase: LoadPhase::Loaded,
            key: bytes,
            ..s
        },
        (LoadPhase::ReadingKey, LoadEventModel::Unavailable(m)) => load_failed(
            s,
            unavailable(s.source, s.role, true, m),
        ),
        _ => s,
    }
}

/// What a state asks the caller to do.
pub open spec fn request_of(s: LoaderModel) -> RequestModel {
    match (s.phase, s.source) {
        (
            LoadPhase::CheckingPermissions,
            SignerModel::Local { cert_path, key_path },
        ) => RequestModel::StatKeyFile(key_path),
        (LoadPhase::ReadingCert, SignerModel::Local { cert_path, key_path }) => RequestModel::ReadFile(
            cert_path,
        ),
        (LoadPhase::ReadingKey, SignerModel::Local { cert_path, key_path }) => RequestModel::ReadFile(
            key_path,
        ),
        (LoadPhase::ReadingCert, SignerModel::Env { cert_var, key_var }) => RequestModel::ReadEnv(
            cert_var,
        ),
        (LoadPhase::ReadingKey, SignerModel::Env { cert_var, key_var }) => RequestModel::ReadEnv(
            key_var,
        ),
        _ => RequestModel::Finished,
    }
}

fn file_words_of(role: CredentialRole, is_key: bool) -> (w: &'static str)
    ensures
        w@ == file_words(role, is_key),
{
    match role {
        CredentialRole::Main => if is_key {
            "key"
        } else {
            "cert"
        },
        CredentialRole::SharedWithMain => if is_key {
            "main key"
        } else {
            "main cert"
        },
        CredentialRole::Identity => if is_key {
            "CAWG key"
        } else {
            "CAWG cert"
        },
    }
}

fn env_words_of(role: CredentialRole, is_key: bool) -> (w: &'static str)
    ensures
        w@ == env_words(role, is_key),
{
    match role {
        CredentialRole::Main => if is_key {
            "Key"
        } else {
            "Cert"
        },
        CredentialRole::SharedWithMain => if is_key {
            "Main key"
        } else {
            "Main cert"
        },
        CredentialRole::Identity => if is_key {
            "CAWG key"
        } else {
            "CAWG cert"
        },
    }
}

/// The failure for a certificate or key of `source` that could not be had.
pub fn unavailable_error(source: &Signer, role: CredentialRole, is_key: bool, detail: &str) -> (e:
    EngineError)
    ensures
        e@ == unavailable(source@, role, is_key, detail@),
{
    match source {
        Signer::Local { cert_path, key_path } => EngineError::Config(
            "Failed to read ".to_string().concat(file_words_of(role, is_key)).concat(": ").concat(
                detail,
            ),
        ),
        Signer::Env { cert_var, key_var } => {
            let name = if is_key {
                key_var
            } else {
                cert_var
            };
            EngineError::Config(
                env_words_of(role, is_key).to_string().concat(" env var not found: ").concat(
                    name.as_str(),
                ),
            )
        },
    }
}

/// The loader of one credential.
pub struct KeyLoader {
    source: Signer,
    role: CredentialRole,
    phase: LoadPhase,
    cleared: bool,
    material: KeyMaterial,
    failure: Option<EngineError>,
}

impl View for KeyLoader {
    type V = LoaderModel;

    closed spec fn view(&self) -> LoaderModel {
        LoaderModel {
            source: self.source@,
            role: self.role,
            phase: self.phase,
            cleared: self.cleared,
            cert: self.material.cert_bytes(),
            key: self.material.key_bytes(),
            failure: match self.failure {
                Some(e) => Some(e@),
                None => None,
            },
        }
    }
}

impl KeyLoader {
    /// The loader for the credential of `source`. `check_permissions` says
    /// whether the platform has POSIX permission bits.
    pub fn begin(source: Signer, role: CredentialRole, check_permissions: bool) -> (loader:
        KeyLoader)
        ensures
            loader@ == load_start(source@, role, check_permissions),
    {
        let local = match &source {
            Signer::Local { .. } => true,
            Signer::Env { .. } => false,
        };
        KeyLoader {
            source,
            role,
            phase: if local && check_permissions {
                LoadPhase::CheckingPermissions
            } else {
                LoadPhase::ReadingCert
            },
            cleared: false,
            material: KeyMaterial::new(Vec::new(), Vec::new()),
            failure: None,
        }
    }

    /// What the caller has to do now.
    pub fn pending(&self) -> (request: LoadRequest)
        ensures
            request@ == request_of(self@),
    {
        match (self.phase, &self.source) {
            (
                LoadPhase::CheckingPermissions,
                Signer::Local { cert_path, key_path },
            ) => LoadRequest::StatKeyFile(key_path.clone()),
            (LoadPhase::ReadingCert, Signer::Local { cert_path, key_path }) => LoadRequest::ReadFile(
                cert_path.clone(),
            ),
            (LoadPhase::ReadingKey, Signer::Local { cert_path, key_path }) => LoadRequest::ReadFile(
                key_path.clone(),
            ),
            (LoadPhase::ReadingCert, Signer::Env { cert_var, key_var }) => LoadRequest::ReadEnv(
                cert_var.clone(),
            ),
            (LoadPhase::ReadingKey, Signer::Env { cert_var, key_var }) => LoadRequest::ReadEnv(
                key_var.clone(),
            ),
            _ => LoadRequest::Finished,
        }
    }

    fn fail(&mut self, e: EngineError)
        ensures
            final(self)@ == load_failed(old(self)@, e@),
    {
        self.material.wipe();
        self.failure = Some(e);
        self.phase = LoadPhase::Failed;
        assert(self.material.cert_bytes() =~= Seq::<u8>::empty());
        assert(self.material.key_bytes() =~= Seq::<u8>::empty());
    }

    /// Takes the caller's report and says what to do next. Bytes that the
    /// loader does not keep are zeroed before they are dropped.
    pub fn advance(&mut self, event: LoadEvent) -> (request: LoadRequest)
        ensures
            final(self)@ == load_step(old(self)@, event@),
            request@ == request_of(final(self)@),
    {
        match (self.phase, event) {
            (LoadPhase::CheckingPermissions, LoadEvent::Mode(mode)) => {
                let path = match &self.source {
                    Signer::Local { cert_path, key_path } => key_path.clone(),
                    Signer::Env { cert_var, key_var } => key_var.clone(),
                };
                match check_private_key_permissions(path.as_str(), mode) {
                    Ok(_) => {
                        self.phase = LoadPhase::ReadingCert;
                        self.cleared = true;
                    },
                    Err(e) => {
                        self.fail(e);
                    },
                }
            },
            (LoadPhase::CheckingPermissions, LoadEvent::Unavailable(m)) => {
                self.fail(
                    EngineError::Config("Failed to stat key file: ".to_string().concat(m.as_str())),
                );
            },
            (LoadPhase::ReadingCert, LoadEvent::Content(bytes)) => {
                self.material.cert = bytes;
                self.phase = LoadPhase::ReadingKey;
            },
            (LoadPhase::ReadingCert, LoadEvent::Unavailable(m)) => {
                let e = unavailable_error(&self.source, self.role, false, m.as_str());
                self.fail(e);
            },
            (LoadPhase::ReadingKey, LoadEvent::Content(bytes)) => {
                self.material.key = bytes;
                self.phase = LoadPhase::Loaded;
            },
            (LoadPhase::ReadingKey, LoadEvent::Unavailable(m)) => {
                let e = unavailable_error(&self.source, self.role, true, m.as_str());
                self.fail(e);
            },
            (_, LoadEvent::Content(bytes)) => {
                let mut stray = bytes;
                zeroize_bytes(&mut stray);
            },
            _ => {},
        }
        self.pending()
    }

    /// Ends the load. A finished load gives its material, a failed one its
    /// failure; a load that is given up half-way is zeroed and refused.
    pub fn finish(self) -> (r: EngineResult<KeyMaterial>)
        ensures
            match self@.phase {
                LoadPhase::Loaded => r matches Ok(m) && m.cert_bytes() == self@.cert
                    && m.key_bytes() == self@.key,
                LoadPhase::Failed => r matches Err(e) && e@ == (match self@.failure {
                    Some(failure) => failure,
                    None => ErrorModel::Config("credential loading is not finished"@),
                }),
                _ => r matches Err(e) && e@ == ErrorModel::Config(
                    "credential loading is not finished"@,
                ),
            },
    {
        let mut loader = self;
        match loader.phase {
            LoadPhase::Loaded => Ok(loader.material),
            LoadPhase::Failed => {
                match loader.failure {
                    Some(e) => Err(e),
                    None => Err(EngineError::config("credential loading is not finished")),
                }
            },
            _ => {
                loader.material.wipe();
                Err(EngineError::config("credential loading is not finished"))
            },
        }
    }
}

/// The state after the events of `events`, one after another.
pub open spec fn load_run(s: LoaderModel, events: Seq<LoadEventModel>) -> LoaderModel
    decreases events.len(),
{
    if events.len() == 0 {
        s
    } else {
        load_step(load_run(s, events.drop_last()), events.last())
    }
}

/// What holds of every state that a load can reach.
pub open spec fn load_consistent(s: LoaderModel, check_permissions: bool) -> bool {
    &&& s.phase is CheckingPermissions ==> s.source is Local && check_permissions && !s.cleared
    &&& (s.phase is ReadingCert || s.phase is ReadingKey || s.phase is Loaded) && s.source is Local
        && check_permissions ==> s.cleared
    &&& s.phase is Failed ==> s.failure is Some && s.cert.len() == 0 && s.key.len() == 0
    &&& (s.phase is CheckingPermissions || s.phase is ReadingCert) ==> s.cert.len() == 0
        && s.key.len() == 0
    &&& s.phase is ReadingKey ==> s.key.len() == 0
    &&& !(s.phase is Failed) ==> s.failure is None
}

/// Every state that a load reaches is consistent.
pub proof fn lemma_load_consistent(
    source: SignerModel,
    role: CredentialRole,
    check_permissions: bool,
    events: Seq<LoadEventModel>,
)
    ensures
        load_consistent(load_run(load_start(source, role, check_permissions), events), check_permissions),
    decreases events.len(),
{
    if events.len() > 0 {
        lemma_load_consistent(source, role, check_permissions, events.drop_last());
    }
}

/// Where permissions are checked, no file of a credential is read before
/// the mode of its key file was seen and found private, and a mode that
/// grants anything to group or others ends the load with nothing read.
pub proof fn lemma_permissions_before_read(
    source: SignerModel,
    role: CredentialRole,
    events: Seq<LoadEventModel>,
    mode: u32,
)
    requires
        source is Local,
    ensures
        request_of(load_start(source, role, true)) is StatKeyFile,
        request_of(load_run(load_start(source, role, true), events)) is ReadFile ==> load_run(
            load_start(source, role, true),
            events,
        ).cleared,
        !mode_is_private(mode) ==> request_of(
            load_step(load_start(source, role, true), LoadEventModel::Mode(mode)),
        ) is Finished && load_step(
            load_start(source, role, true),
            LoadEventModel::Mode(mode),
        ).failure == Some(ErrorModel::Config(insecure_message(source->Local_key_path))),
        mode_is_private(mode) ==> request_of(
            load_step(load_start(source, role, true), LoadEventModel::Mode(mode)),
        ) == RequestModel::ReadFile(source->Local_cert_path),
{
    lemma_load_consistent(source, role, true, events);
}

/// A load that fails holds no byte of what was read before the failure.
pub proof fn lemma_failed_load_holds_nothing(
    source: SignerModel,
    role: CredentialRole,
    check_permissions: bool,
    events: Seq<LoadEventModel>,
)
    requires
        load_run(load_start(source, role, check_permissions), events).phase is Failed,
    ensures
        load_run(load_start(source, role, check_permissions), events).cert.len() == 0,
        load_run(load_start(source, role, check_permissions), events).key.len() == 0,
{
    lemma_load_consistent(source, role, check_permissions, events);
}

} // verus!
