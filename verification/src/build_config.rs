//! Build configuration for reproducible builds: build metadata, the build
//! hash, backend selection and the compiler's settings.

use vstd::prelude::*;
use vstd::utf8::encode_utf8;
use sha2::Digest;
use vstd::utf8::char_u32_cast;
use crate::text::{chars_of, decimal, decimal_string, hex_lower, hex_string, is_lower_hex, lemma_hex_lower_digits, owned};
use crate::text_map::{pairs_view, TextMap};

verus! {

/// The SHA-256 digest of a byte string.
pub uninterp spec fn sha256_of(data: Seq<u8>) -> Seq<u8>;

/// `sha2::Sha256::digest`: the SHA-256 digest of `data`, which is 32 bytes
/// long. Nothing more is stated of the digest: it is named by `sha256_of`.
#[verifier::external_body]
fn sha256_digest(data: &[u8]) -> (r: Vec<u8>)
    ensures
        r@ == sha256_of(data@),
        r@.len() == 32,
{
    sha2::Sha256::digest(data).to_vec()
}

/// `std::time::SystemTime::elapsed` on the Unix epoch, in whole seconds (0
/// when the clock is before the epoch). Nothing is stated of the result:
/// it is the time when the call runs.
#[verifier::external_body]
pub(crate) fn unix_time_now() -> (r: u64) {
    match std::time::UNIX_EPOCH.elapsed() {
        Ok(d) => d.as_secs(),
        Err(_) => 0,
    }
}

/// The lower-case hexadecimal SHA-256 digest of a byte string.
pub open spec fn sha256_hex(data: Seq<u8>) -> Seq<char> {
    hex_lower(sha256_of(data))
}

/// Whether a text is a hexadecimal SHA-256 digest: 64 lower-case
/// hexadecimal digits.
pub open spec fn is_hex_digest(s: Seq<char>) -> bool {
    s.len() == 64 && forall|i: int| 0 <= i < s.len() ==> is_lower_hex(#[trigger] s[i])
}

/// The hexadecimal SHA-256 digest of the UTF-8 bytes of `text`: 64
/// lower-case hexadecimal digits.
pub fn sha256_hex_of(text: &str) -> (r: String)
    ensures
        r@ == sha256_hex(encode_utf8(text@)),
        is_hex_digest(r@),
{
    let digest = sha256_digest(text.as_bytes());
    proof { lemma_hex_lower_digits(digest@); }
    hex_string(digest.as_slice())
}

/// The version of the compiler.
pub open spec fn compiler_version_text() -> Seq<char> {
    "2.3.0"@
}

/// The version of the compiler.
pub fn compiler_version() -> (r: &'static str)
    ensures
        r@ == compiler_version_text(),
{
    proof {
        reveal_strlit("2.3.0");
    }
    "2.3.0"
}

/// Build metadata as plain values.
pub struct MetadataView {
    pub compiler_version: Seq<char>,
    pub target_platform: Seq<char>,
    pub build_timestamp: u64,
    pub source_hash: Seq<char>,
    pub dependency_hashes: Seq<(Seq<char>, Seq<char>)>,
    pub build_flags: Seq<Seq<char>>,
}

/// Build metadata for verification and reproducibility.
#[derive(Debug)]
pub struct BuildMetadata {
    /// Compiler version
    pub compiler_version: String,
    /// Target platform
    pub target_platform: String,
    /// Build timestamp (fixed for reproducible builds)
    pub build_timestamp: u64,
    /// Source file hash
    pub source_hash: String,
    /// Dependency hashes, sorted by dependency name
    pub dependency_hashes: TextMap,
    /// Build flags and configuration
    pub build_flags: Vec<String>,
}

impl View for BuildMetadata {
    type V = MetadataView;

    open spec fn view(&self) -> MetadataView {
        MetadataView {
            compiler_version: self.compiler_version@,
            target_platform: self.target_platform@,
            build_timestamp: self.build_timestamp,
            source_hash: self.source_hash@,
            dependency_hashes: self.dependency_hashes@,
            build_flags: self.build_flags@.map_values(|f: String| f@),
        }
    }
}

/// Fresh metadata for a target platform and a timestamp.
pub open spec fn fresh_metadata(target_platform: Seq<char>, timestamp: u64) -> MetadataView {
    MetadataView {
        compiler_version: compiler_version_text(),
        target_platform,
        build_timestamp: timestamp,
        source_hash: seq![],
        dependency_hashes: seq![],
        build_flags: seq![],
    }
}

impl BuildMetadata {
    /// Create new build metadata for a target platform, stamped with the
    /// current time.
    pub fn new(target_platform: &str) -> (r: Self)
        ensures
            r@ == fresh_metadata(target_platform@, r@.build_timestamp),
    {
        let now = unix_time_now();
        BuildMetadata::new_with_timestamp(now, target_platform)
    }

    /// Create new build metadata for a target platform with a specific
    /// timestamp.
    pub fn new_with_timestamp(timestamp: u64, target_platform: &str) -> (r: Self)
        ensures
            r@ == fresh_metadata(target_platform@, timestamp),
    {
        let r = BuildMetadata {
            compiler_version: owned(compiler_version()),
            target_platform: owned(target_platform),
            build_timestamp: timestamp,
            source_hash: String::new(),
            dependency_hashes: TextMap::new(),
            build_flags: Vec::new(),
        };
        assert(r@.build_flags =~= Seq::<Seq<char>>::empty());
        r
    }

    /// Add dependency hash (replacing an earlier hash of the same
    /// dependency).
    pub fn add_dependency_hash(&mut self, name: String, hash: String)
        ensures
            final(self)@ == (MetadataView {
                dependency_hashes: crate::text_map::upsert(old(self)@.dependency_hashes, name@, hash@),
                ..old(self)@
            }),
    {
        self.dependency_hashes.insert(name, hash);
    }

    /// Add build flag.
    pub fn add_build_flag(&mut self, flag: String)
        ensures
            final(self)@ == (MetadataView { build_flags: old(self)@.build_flags.push(flag@), ..old(self)@ }),
    {
        self.build_flags.push(flag);
        assert(self@.build_flags =~= old(self)@.build_flags.push(flag@));
    }

    /// A copy of this metadata.
    pub fn duplicate(&self) -> (r: Self)
        ensures
            r@ == self@,
    {
        let mut flags: Vec<String> = Vec::new();
        let mut i: usize = 0;
        while i < self.build_flags.len()
            invariant
                i <= self.build_flags@.len(),
                flags@.len() == i,
                forall|j: int| 0 <= j < i ==> (#[trigger] flags@[j])@ == self.build_flags@[j]@,
            decreases self.build_flags@.len() - i,
        {
            flags.push(self.build_flags[i].clone());
            i = i + 1;
        }
        let r = BuildMetadata {
            compiler_version: self.compiler_version.clone(),
            target_platform: self.target_platform.clone(),
            build_timestamp: self.build_timestamp,
            source_hash: self.source_hash.clone(),
            dependency_hashes: self.dependency_hashes.duplicate(),
            build_flags: flags,
        };
        assert(r@.build_flags =~= self@.build_flags);
        r
    }
}

/// A build configuration as plain values.
pub struct BuildConfigView {
    pub fixed_timestamp: Option<u64>,
    pub source_hash: Option<Seq<char>>,
    pub env_vars: Seq<(Seq<char>, Seq<char>)>,
    pub deterministic_output: bool,
    pub build_metadata: MetadataView,
}

/// Deterministic build configuration for reproducible builds.
#[derive(Debug)]
pub struct DeterministicBuildConfig {
    /// Fixed timestamp for reproducible builds (Unix timestamp)
    pub fixed_timestamp: Option<u64>,
    /// Source file hash for build verification
    pub source_hash: Option<String>,
    /// Build environment variables to include in hash, sorted by name
    pub env_vars: TextMap,
    /// Enable deterministic output ordering
    pub deterministic_output: bool,
    /// Build metadata for verification
    pub build_metadata: BuildMetadata,
}

impl View for DeterministicBuildConfig {
    type V = BuildConfigView;

    open spec fn view(&self) -> BuildConfigView {
        BuildConfigView {
            fixed_timestamp: self.fixed_timestamp,
            source_hash: match self.source_hash {
                Some(h) => Some(h@),
                None => None,
            },
            env_vars: self.env_vars@,
            deterministic_output: self.deterministic_output,
            build_metadata: self.build_metadata@,
        }
    }
}

/// The fixed timestamp of deterministic builds: 2022-01-01 00:00:00 UTC.
pub open spec fn deterministic_timestamp() -> u64 {
    1640995200
}

/// The bytes of the environment variables in the build hash: each name
/// followed by its value, in order.
pub open spec fn env_bytes(e: Seq<(Seq<char>, Seq<char>)>) -> Seq<u8>
    decreases e.len(),
{
    if e.len() == 0 {
        seq![]
    } else {
        env_bytes(e.drop_last()) + encode_utf8(e.last().0) + encode_utf8(e.last().1)
    }
}

/// The bytes the build hash digests: the source hash (if any), the
/// timestamp in decimal, the environment variables sorted by name, the
/// compiler version and the target platform.
pub open spec fn build_hash_input(c: BuildConfigView, timestamp: u64) -> Seq<u8> {
    (match c.source_hash {
        Some(h) => encode_utf8(h),
        None => seq![],
    }) + encode_utf8(decimal(timestamp as nat)) + env_bytes(c.env_vars) + encode_utf8(
        c.build_metadata.compiler_version,
    ) + encode_utf8(c.build_metadata.target_platform)
}

/// Appends the UTF-8 bytes of `s`.
fn push_text_bytes(out: &mut Vec<u8>, s: &str)
    ensures
        final(out)@ == old(out)@ + encode_utf8(s@),
{
    let b = s.as_bytes();
    let mut i: usize = 0;
    while i < b.len()
        invariant
            b@ == encode_utf8(s@),
            i <= b@.len(),
            out@ == old(out)@ + b@.take(i as int),
        decreases b@.len() - i,
    {
        out.push(b[i]);
        i = i + 1;
        assert(out@ =~= old(out)@ + b@.take(i as int));
    }
    assert(b@.take(i as int) =~= b@);
}

impl DeterministicBuildConfig {
    /// Create a new build configuration with deterministic defaults: the
    /// fixed timestamp, deterministic output, and metadata stamped now.
    pub fn new_deterministic(target_platform: &str) -> (r: Self)
        ensures
            r@.fixed_timestamp == Some(deterministic_timestamp()),
            r@.source_hash is None,
            r@.env_vars == Seq::<(Seq<char>, Seq<char>)>::empty(),
            r@.deterministic_output,
            r@.build_metadata == fresh_metadata(target_platform@, r@.build_metadata.build_timestamp),
    {
        DeterministicBuildConfig {
            fixed_timestamp: Some(1640995200),
            source_hash: None,
            env_vars: TextMap::new(),
            deterministic_output: true,
            build_metadata: BuildMetadata::new(target_platform),
        }
    }

    /// Create a new build configuration stamped with the current time.
    pub fn new(target_platform: &str) -> (r: Self)
        ensures
            r@.fixed_timestamp is None,
            r@.source_hash is None,
            r@.env_vars == Seq::<(Seq<char>, Seq<char>)>::empty(),
            !r@.deterministic_output,
            r@.build_metadata == fresh_metadata(target_platform@, r@.build_metadata.build_timestamp),
    {
        let now = unix_time_now();
        DeterministicBuildConfig {
            fixed_timestamp: None,
            source_hash: None,
            env_vars: TextMap::new(),
            deterministic_output: false,
            build_metadata: BuildMetadata::new_with_timestamp(now, target_platform),
        }
    }

    /// Set the source code: records the hexadecimal SHA-256 digest of its
    /// UTF-8 bytes, in the configuration and in its metadata.
    pub fn with_source(&mut self, source: &str)
        ensures
            final(self)@ == (BuildConfigView {
                source_hash: Some(sha256_hex(encode_utf8(source@))),
                build_metadata: MetadataView {
                    source_hash: sha256_hex(encode_utf8(source@)),
                    ..old(self)@.build_metadata
                },
                ..old(self)@
            }),
    {
        let h = sha256_hex_of(source);
        self.build_metadata.source_hash = h.clone();
        self.source_hash = Some(h);
    }

    /// Add environment variable to build context (replacing an earlier
    /// value of the same variable).
    pub fn with_env_var(&mut self, key: String, value: String)
        ensures
            final(self)@ == (BuildConfigView {
                env_vars: crate::text_map::upsert(old(self)@.env_vars, key@, value@),
                ..old(self)@
            }),
    {
        self.env_vars.insert(key, value);
    }

    /// Get build timestamp: the fixed one, or else the current time.
    pub fn get_timestamp(&self) -> (r: u64)
        ensures
            self.fixed_timestamp matches Some(t) ==> r == t,
    {
        match self.fixed_timestamp {
            Some(t) => t,
            None => unix_time_now(),
        }
    }

    /// The build hash for a given timestamp: the hexadecimal SHA-256
    /// digest of `build_hash_input`.
    pub fn compute_build_hash_at(&self, timestamp: u64) -> (r: String)
        ensures
            r@ == sha256_hex(build_hash_input(self@, timestamp)),
            is_hex_digest(r@),
    {
        let mut data: Vec<u8> = Vec::new();
        match &self.source_hash {
            Some(h) => push_text_bytes(&mut data, h.as_str()),
            None => {},
        }
        let ts = decimal_string(timestamp);
        push_text_bytes(&mut data, ts.as_str());
        let entries = self.env_vars.entries();
        let ghost e = pairs_view(entries@);
        let ghost head = data@;
        let mut i: usize = 0;
        while i < entries.len()
            invariant
                e == pairs_view(entries@),
                e == self@.env_vars,
                i <= entries@.len(),
                data@ == head + env_bytes(e.take(i as int)),
            decreases entries@.len() - i,
        {
            assert(e.take(i + 1).drop_last() =~= e.take(i as int));
            push_text_bytes(&mut data, entries[i].0.as_str());
            push_text_bytes(&mut data, entries[i].1.as_str());
            i = i + 1;
            assert(data@ =~= head + env_bytes(e.take(i as int)));
        }
        assert(e.take(i as int) =~= e);
        push_text_bytes(&mut data, self.build_metadata.compiler_version.as_str());
        push_text_bytes(&mut data, self.build_metadata.target_platform.as_str());
        assert(data@ =~= build_hash_input(self@, timestamp));
        let digest = sha256_digest(data.as_slice());
        proof { lemma_hex_lower_digits(digest@); }
        hex_string(digest.as_slice())
    }

    /// Compute the build hash, at the build timestamp (`get_timestamp`).
    pub fn compute_build_hash(&self) -> (r: String)
        ensures
            exists|t: u64|
                #![trigger build_hash_input(self@, t)]
                (self.fixed_timestamp matches Some(f) ==> t == f) && r@ == sha256_hex(build_hash_input(self@, t)),
        is_hex_digest(r@),
    {
        let t = self.get_timestamp();
        self.compute_build_hash_at(t)
    }

    /// A copy of this configuration.
    pub fn duplicate(&self) -> (r: Self)
        ensures
            r@ == self@,
    {
        DeterministicBuildConfig {
            fixed_timestamp: self.fixed_timestamp,
            source_hash: match &self.source_hash {
                Some(h) => Some(h.clone()),
                None => None,
            },
            env_vars: self.env_vars.duplicate(),
            deterministic_output: self.deterministic_output,
            build_metadata: self.build_metadata.duplicate(),
        }
    }
}


/// Backend selection for code generation.
#[derive(Debug, Clone, Copy, PartialEq, Eq, Structural)]
pub enum Backend {
    /// WebAssembly backend
    Wasm,
    /// Interpreter (AST-based)
    Interpreter,
    /// IR Interpreter
    IrInterpreter,
    /// HIR (High-level IR) output
    Hir,
    /// MIR (Mid-level IR) output
    Mir,
}

/// A character in lower case, for ASCII letters.
pub open spec fn ascii_lower_char(c: char) -> char {
    if 'A' <= c && c <= 'Z' {
        ((c as u32) + 32) as char
    } else {
        c
    }
}

/// A text with its ASCII letters in lower case.
pub open spec fn ascii_lower(s: Seq<char>) -> Seq<char> {
    s.map_values(|c: char| ascii_lower_char(c))
}

/// The backend a lower-case name selects.
pub open spec fn backend_named(name: Seq<char>) -> Option<Backend> {
    if name == "wasm"@ || name == "webassembly"@ {
        Some(Backend::Wasm)
    } else if name == "interpreter"@ || name == "ast"@ {
        Some(Backend::Interpreter)
    } else if name == "ir"@ || name == "ir-interpreter"@ {
        Some(Backend::IrInterpreter)
    } else if name == "hir"@ {
        Some(Backend::Hir)
    } else if name == "mir"@ {
        Some(Backend::Mir)
    } else {
        None
    }
}

/// The name of a backend.
pub open spec fn backend_name(b: Backend) -> Seq<char> {
    match b {
        Backend::Wasm => "wasm"@,
        Backend::Interpreter => "interpreter"@,
        Backend::IrInterpreter => "ir-interpreter"@,
        Backend::Hir => "hir"@,
        Backend::Mir => "mir"@,
    }
}

/// Whether the characters of `w`, with ASCII letters in lower case, spell
/// `lit`.
fn spells_ignoring_case(w: &Vec<char>, lit: &str) -> (r: bool)
    ensures
        r == (ascii_lower(w@) == lit@),
{
    let l = chars_of(lit);
    if w.len() != l.len() {
        proof {
            assert(ascii_lower(w@).len() == w@.len());
        }
        return false;
    }
    let mut i: usize = 0;
    while i < w.len()
        invariant
            l@ == lit@,
            w@.len() == l@.len(),
            i <= w@.len(),
            forall|j: int| 0 <= j < i ==> ascii_lower_char(w@[j]) == l@[j],
        decreases w@.len() - i,
    {
        let c = w[i];
        let d = l[i];
        let same = if 'A' <= c && c <= 'Z' {
            (d as u32) == (c as u32) + 32
        } else {
            c == d
        };
        proof {
            char_u32_cast(d, d as u32);
            if 'A' <= c && c <= 'Z' {
                assert((((c as u32) + 32) as char) as u32 == (c as u32) + 32);
            }
        }
        if !same {
            assert(ascii_lower(w@)[i as int] != lit@[i as int]);
            return false;
        }
        i = i + 1;
    }
    assert(ascii_lower(w@) =~= lit@);
    true
}

impl Backend {
    /// The backend a name selects, ignoring the case of ASCII letters:
    /// `wasm` or `webassembly`, `interpreter` or `ast`, `ir` or
    /// `ir-interpreter`, `hir`, `mir`. (No other character's lower case is
    /// an ASCII letter of these names, so this is the same as comparing
    /// the full lower case.)
    pub fn from_str(s: &str) -> (r: Option<Self>)
        ensures
            r == backend_named(ascii_lower(s@)),
    {
        let w = chars_of(s);
        if spells_ignoring_case(&w, "wasm") || spells_ignoring_case(&w, "webassembly") {
            Some(Backend::Wasm)
        } else if spells_ignoring_case(&w, "interpreter") || spells_ignoring_case(&w, "ast") {
            Some(Backend::Interpreter)
        } else if spells_ignoring_case(&w, "ir") || spells_ignoring_case(&w, "ir-interpreter") {
            Some(Backend::IrInterpreter)
        } else if spells_ignoring_case(&w, "hir") {
            Some(Backend::Hir)
        } else if spells_ignoring_case(&w, "mir") {
            Some(Backend::Mir)
        } else {
            None
        }
    }

    /// Get backend name.
    pub fn name(&self) -> (r: &'static str)
        ensures
            r@ == backend_name(*self),
    {
        match self {
            Backend::Wasm => "wasm",
            Backend::Interpreter => "interpreter",
            Backend::IrInterpreter => "ir-interpreter",
            Backend::Hir => "hir",
            Backend::Mir => "mir",
        }
    }
}

/// A backend's name selects it again.
pub proof fn law_backend_name_round_trip(b: Backend)
    ensures
        backend_named(ascii_lower(backend_name(b))) == Some(b),
{
    reveal_strlit("wasm");
    reveal_strlit("webassembly");
    reveal_strlit("interpreter");
    reveal_strlit("ast");
    reveal_strlit("ir");
    reveal_strlit("ir-interpreter");
    reveal_strlit("hir");
    reveal_strlit("mir");
    let n = backend_name(b);
    assert(ascii_lower(n) =~= n);
    assert("wasm"@.len() == 4 && "webassembly"@.len() == 11 && "interpreter"@.len() == 11);
    assert("ast"@.len() == 3 && "ir"@.len() == 2 && "ir-interpreter"@.len() == 14);
    assert("hir"@.len() == 3 && "mir"@.len() == 3);
    assert("webassembly"@[0] == 'w' && "interpreter"@[0] == 'i' && "ast"@[0] == 'a' && "hir"@[0] == 'h');
    assert("mir"@[0] == 'm');
}

/// A configuration as `DeterministicBuildConfig::new` makes it for a
/// target platform: no fixed timestamp, no source hash, no environment
/// variables, no deterministic output, fresh metadata.
pub open spec fn is_fresh_config(c: BuildConfigView, target_platform: Seq<char>) -> bool {
    &&& c.fixed_timestamp is None
    &&& c.source_hash is None
    &&& c.env_vars == Seq::<(Seq<char>, Seq<char>)>::empty()
    &&& !c.deterministic_output
    &&& c.build_metadata == fresh_metadata(target_platform, c.build_metadata.build_timestamp)
}

/// The main compiler settings.
#[derive(Debug)]
pub struct Compiler {
    /// Enable debug output
    pub debug: bool,
    /// Default backend for compilation
    pub default_backend: Backend,
    /// Build configuration for deterministic builds
    pub build_config: DeterministicBuildConfig,
    /// Enable strict invariant checking (panic on violation)
    pub strict_invariants: bool,
}

impl Compiler {
    /// Create a new compiler instance for a target platform.
    pub fn new(target_platform: &str) -> (r: Self)
        ensures
            !r.debug,
            r.default_backend == Backend::Interpreter,
            is_fresh_config(r.build_config@, target_platform@),
            !r.strict_invariants,
    {
        Compiler {
            debug: false,
            default_backend: Backend::Interpreter,
            build_config: DeterministicBuildConfig::new(target_platform),
            strict_invariants: false,
        }
    }

    /// Create a new compiler instance with debug enabled.
    pub fn new_with_debug(target_platform: &str) -> (r: Self)
        ensures
            r.debug,
            r.default_backend == Backend::Interpreter,
            is_fresh_config(r.build_config@, target_platform@),
            !r.strict_invariants,
    {
        Compiler {
            debug: true,
            default_backend: Backend::Interpreter,
            build_config: DeterministicBuildConfig::new(target_platform),
            strict_invariants: false,
        }
    }

    /// Create a new compiler instance with specific backend.
    pub fn new_with_backend(backend: Backend, target_platform: &str) -> (r: Self)
        ensures
            !r.debug,
            r.default_backend == backend,
            is_fresh_config(r.build_config@, target_platform@),
            !r.strict_invariants,
    {
        Compiler {
            debug: false,
            default_backend: backend,
            build_config: DeterministicBuildConfig::new(target_platform),
            strict_invariants: false,
        }
    }

    /// Create a new compiler instance with deterministic build
    /// configuration.
    pub fn new_deterministic(target_platform: &str) -> (r: Self)
        ensures
            !r.debug,
            r.default_backend == Backend::Interpreter,
            r.build_config@.fixed_timestamp == Some(deterministic_timestamp()),
            r.build_config@.source_hash is None,
            r.build_config@.env_vars == Seq::<(Seq<char>, Seq<char>)>::empty(),
            r.build_config@.deterministic_output,
            r.build_config@.build_metadata == fresh_metadata(
                target_platform@,
                r.build_config@.build_metadata.build_timestamp,
            ),
            !r.strict_invariants,
    {
        Compiler {
            debug: false,
            default_backend: Backend::Interpreter,
            build_config: DeterministicBuildConfig::new_deterministic(target_platform),
            strict_invariants: false,
        }
    }

    /// Create a new compiler instance with strict invariant checking
    /// enabled.
    pub fn new_with_strict_invariants(target_platform: &str) -> (r: Self)
        ensures
            !r.debug,
            r.default_backend == Backend::Interpreter,
            is_fresh_config(r.build_config@, target_platform@),
            r.strict_invariants,
    {
        Compiler {
            debug: false,
            default_backend: Backend::Interpreter,
            build_config: DeterministicBuildConfig::new(target_platform),
            strict_invariants: true,
        }
    }

    /// Enable or disable strict invariant checking.
    pub fn set_strict_invariants(&mut self, enabled: bool)
        ensures
            final(self).strict_invariants == enabled,
            final(self).debug == old(self).debug,
            final(self).default_backend == old(self).default_backend,
            final(self).build_config@ == old(self).build_config@,
    {
        self.strict_invariants = enabled;
    }

    /// Set build configuration.
    pub fn with_build_config(self, config: DeterministicBuildConfig) -> (r: Self)
        ensures
            r.build_config@ == config@,
            r.debug == self.debug,
            r.default_backend == self.default_backend,
            r.strict_invariants == self.strict_invariants,
    {
        Compiler { build_config: config, ..self }
    }
}

/// A deterministic build is reproducible: with its timestamp fixed, every
/// computation of the build hash of the same configuration gives the same
/// hash.
pub proof fn law_fixed_timestamp_hash_is_reproducible(c: BuildConfigView, f: u64, r1: Seq<char>, r2: Seq<char>)
    requires
        c.fixed_timestamp == Some(f),
        exists|t: u64|
            #![trigger build_hash_input(c, t)]
            (c.fixed_timestamp matches Some(g) ==> t == g) && r1 == sha256_hex(build_hash_input(c, t)),
        exists|t: u64|
            #![trigger build_hash_input(c, t)]
            (c.fixed_timestamp matches Some(g) ==> t == g) && r2 == sha256_hex(build_hash_input(c, t)),
    ensures
        r1 == r2,
        r1 == sha256_hex(build_hash_input(c, f)),
{
}

/// Two configurations with the same fixed timestamp, source hash,
/// environment variables (whatever order they were set in), compiler
/// version and target platform have the same build hash; the other fields
/// (deterministic output, build timestamp, metadata source hash,
/// dependency hashes, build flags) do not change it.
pub proof fn law_build_hash_depends_on_inputs_only(
    c1: BuildConfigView,
    c2: BuildConfigView,
    f: u64,
    r1: Seq<char>,
    r2: Seq<char>,
)
    requires
        c1.fixed_timestamp == Some(f),
        c2.fixed_timestamp == Some(f),
        c1.source_hash == c2.source_hash,
        c1.env_vars == c2.env_vars,
        c1.build_metadata.compiler_version == c2.build_metadata.compiler_version,
        c1.build_metadata.target_platform == c2.build_metadata.target_platform,
        exists|t: u64|
            #![trigger build_hash_input(c1, t)]
            (c1.fixed_timestamp matches Some(g) ==> t == g) && r1 == sha256_hex(build_hash_input(c1, t)),
        exists|t: u64|
            #![trigger build_hash_input(c2, t)]
            (c2.fixed_timestamp matches Some(g) ==> t == g) && r2 == sha256_hex(build_hash_input(c2, t)),
    ensures
        r1 == r2,
{
    assert(build_hash_input(c1, f) == build_hash_input(c2, f));
}

} // verus!
