//! Recording output identifiers, path checks and the delegate registry.
//!
//! Codecs and file types are open-ended framework identifiers: any string
//! without an interior NUL byte is accepted, so identifiers introduced by
//! later system releases stay distinct and can be passed back.

use crate::registry::CallbackRegistry;
use vstd::prelude::*;
use vstd::string::{StringExecFns, StringSliceAdditionalSpecFns};
use vstd::utf8::encode_utf8_decode_utf8;

verus! {

/// The UTF-8 encoding of `text` holds a zero byte.
pub open spec fn has_nul_byte(text: Seq<char>) -> bool {
    vstd::utf8::encode_utf8(text).contains(0u8)
}

/// Whether two strings hold the same text, compared byte by byte.
pub fn same_text(a: &str, b: &str) -> (r: bool)
    ensures
        r == (a@ == b@),
{
    let x = a.as_bytes();
    let y = b.as_bytes();
    proof {
        encode_utf8_decode_utf8(a@);
        encode_utf8_decode_utf8(b@);
    }
    if x.len() != y.len() {
        return false;
    }
    let mut i: usize = 0;
    while i < x.len()
        invariant
            x@ == a.spec_bytes(),
            y@ == b.spec_bytes(),
            x@.len() == y@.len(),
            i <= x@.len(),
            forall|j: int| 0 <= j < i ==> x@[j] == y@[j],
        decreases x@.len() - i,
    {
        if x[i] != y[i] {
            return false;
        }
        i = i + 1;
    }
    assert(x@ =~= y@);
    true
}

/// Whether the UTF-8 bytes of `text` hold a zero byte.
pub fn contains_nul(text: &str) -> (r: bool)
    ensures
        r == has_nul_byte(text@),
{
    let bytes = text.as_bytes();
    let mut i: usize = 0;
    while i < bytes.len()
        invariant
            bytes@ == text.spec_bytes(),
            i <= bytes@.len(),
            forall|j: int| 0 <= j < i ==> bytes@[j] != 0u8,
        decreases bytes@.len() - i,
    {
        if bytes[i] == 0 {
            assert(bytes@[i as int] == 0u8);
            return true;
        }
        i = i + 1;
    }
    false
}

/// A recording codec or file-type identifier contained an interior NUL byte.
#[derive(Debug, Clone, Copy, PartialEq, Eq, Hash, Structural)]
pub struct InvalidRecordingIdentifier;

impl InvalidRecordingIdentifier {
    /// The message of the error.
    pub fn message(&self) -> (s: &'static str)
        ensures
            s@ == "recording identifier contains an interior NUL byte"@,
    {
        "recording identifier contains an interior NUL byte"
    }
}

/// Why a path could not be handed to the recording configuration.
#[derive(Debug, Clone, Copy, PartialEq, Eq, Hash, Structural)]
pub enum InvalidOutputPath {
    /// Foundation file URLs require a valid UTF-8 path.
    NotUtf8,
    /// The path contains an interior NUL byte, which would truncate it.
    InteriorNul,
}

impl InvalidOutputPath {
    /// The message of the error.
    pub fn message(&self) -> (s: &'static str)
        ensures
            *self == InvalidOutputPath::NotUtf8 ==> s@ == "output path is not valid UTF-8"@,
            *self == InvalidOutputPath::InteriorNul ==> s@ == "output path contains an interior NUL byte"@,
    {
        match self {
            InvalidOutputPath::NotUtf8 => "output path is not valid UTF-8",
            InvalidOutputPath::InteriorNul => "output path contains an interior NUL byte",
        }
    }
}

/// Check an output path before it crosses to the framework: `None` stands
/// for a path that is not valid UTF-8.
pub fn check_output_path(path: Option<&str>) -> (r: Result<(), InvalidOutputPath>)
    ensures
        path is None ==> r == Err::<(), InvalidOutputPath>(InvalidOutputPath::NotUtf8),
        path matches Some(p) ==> r == (if has_nul_byte(p@) {
            Err(InvalidOutputPath::InteriorNul)
        } else {
            Ok(())
        }),
{
    match path {
        None => Err(InvalidOutputPath::NotUtf8),
        Some(p) => if contains_nul(p) {
            Err(InvalidOutputPath::InteriorNul)
        } else {
            Ok(())
        },
    }
}

/// The display name of a codec identifier.
pub open spec fn codec_display(id: Seq<char>) -> Seq<char> {
    if id == "avc1"@ {
        "H.264"@
    } else if id == "hvc1"@ {
        "HEVC"@
    } else if id == "jpeg"@ {
        "JPEG"@
    } else if id == "apcn"@ {
        "ProRes 422"@
    } else if id == "ap4h"@ {
        "ProRes 4444"@
    } else if id == "muxa"@ {
        "HEVC with alpha"@
    } else if id == "apch"@ {
        "ProRes 422 HQ"@
    } else if id == "apcs"@ {
        "ProRes 422 LT"@
    } else if id == "apco"@ {
        "ProRes 422 Proxy"@
    } else {
        "codec "@ + id
    }
}

/// A video codec identifier used for recording.
#[derive(Debug, Clone, PartialEq, Eq, Hash)]
pub struct SCRecordingOutputCodec {
    id: String,
}

impl SCRecordingOutputCodec {
    /// The identifier text.
    pub closed spec fn id(&self) -> Seq<char> {
        self.id@
    }

    fn known(id: &str) -> (c: Self)
        ensures
            c.id() == id@,
    {
        SCRecordingOutputCodec { id: String::from_str(id) }
    }

    /// H.264
    pub fn h264() -> (c: Self)
        ensures
            c.id() == "avc1"@,
    {
        Self::known("avc1")
    }

    /// H.265 / HEVC
    pub fn hevc() -> (c: Self)
        ensures
            c.id() == "hvc1"@,
    {
        Self::known("hvc1")
    }

    /// Motion JPEG
    pub fn jpeg() -> (c: Self)
        ensures
            c.id() == "jpeg"@,
    {
        Self::known("jpeg")
    }

    /// Apple ProRes 422
    pub fn pro_res_422() -> (c: Self)
        ensures
            c.id() == "apcn"@,
    {
        Self::known("apcn")
    }

    /// Apple ProRes 4444
    pub fn pro_res_4444() -> (c: Self)
        ensures
            c.id() == "ap4h"@,
    {
        Self::known("ap4h")
    }

    /// HEVC with an alpha channel
    pub fn hevc_with_alpha() -> (c: Self)
        ensures
            c.id() == "muxa"@,
    {
        Self::known("muxa")
    }

    /// Apple ProRes 422 HQ
    pub fn pro_res_422_hq() -> (c: Self)
        ensures
            c.id() == "apch"@,
    {
        Self::known("apch")
    }

    /// Apple ProRes 422 LT
    pub fn pro_res_422_lt() -> (c: Self)
        ensures
            c.id() == "apcs"@,
    {
        Self::known("apcs")
    }

    /// Apple ProRes 422 Proxy
    pub fn pro_res_422_proxy() -> (c: Self)
        ensures
            c.id() == "apco"@,
    {
        Self::known("apco")
    }

    /// Construct an arbitrary codec identifier; refused when its bytes hold
    /// a NUL.
    pub fn from_identifier(identifier: String) -> (r: Result<Self, InvalidRecordingIdentifier>)
        ensures
            r is Err <==> has_nul_byte(identifier@),
            r matches Ok(c) ==> c.id() == identifier@,
    {
        if contains_nul(identifier.as_str()) {
            Err(InvalidRecordingIdentifier)
        } else {
            Ok(SCRecordingOutputCodec { id: identifier })
        }
    }

    /// The underlying identifier.
    pub fn identifier(&self) -> (s: &str)
        ensures
            s@ == self.id(),
    {
        self.id.as_str()
    }

    /// The display name: the codec's name when it is known, otherwise
    /// `codec ` followed by the identifier.
    pub fn display_name(&self) -> (s: String)
        ensures
            s@ == codec_display(self.id()),
    {
        let id = self.id.as_str();
        if same_text(id, "avc1") {
            String::from_str("H.264")
        } else if same_text(id, "hvc1") {
            String::from_str("HEVC")
        } else if same_text(id, "jpeg") {
            String::from_str("JPEG")
        } else if same_text(id, "apcn") {
            String::from_str("ProRes 422")
        } else if same_text(id, "ap4h") {
            String::from_str("ProRes 4444")
        } else if same_text(id, "muxa") {
            String::from_str("HEVC with alpha")
        } else if same_text(id, "apch") {
            String::from_str("ProRes 422 HQ")
        } else if same_text(id, "apcs") {
            String::from_str("ProRes 422 LT")
        } else if same_text(id, "apco") {
            String::from_str("ProRes 422 Proxy")
        } else {
            String::from_str("codec ").concat(id)
        }
    }
}

impl Default for SCRecordingOutputCodec {
    fn default() -> (c: Self)
        ensures
            c.id() == "avc1"@,
    {
        Self::h264()
    }
}

/// The display name of a file type identifier.
pub open spec fn file_type_display(id: Seq<char>) -> Seq<char> {
    if id == "public.mpeg-4"@ {
        "MP4"@
    } else if id == "com.apple.quicktime-movie"@ {
        "MOV"@
    } else if id == "com.apple.m4v-video"@ {
        "M4V"@
    } else if id == "com.apple.m4a-audio"@ {
        "M4A"@
    } else if id == "public.3gpp"@ {
        "3GPP"@
    } else {
        "file type "@ + id
    }
}

/// The conventional extension of a file type identifier, when it is known.
pub open spec fn file_type_extension(id: Seq<char>) -> Option<Seq<char>> {
    if id == "public.mpeg-4"@ {
        Some("mp4"@)
    } else if id == "com.apple.quicktime-movie"@ {
        Some("mov"@)
    } else if id == "com.apple.m4v-video"@ {
        Some("m4v"@)
    } else if id == "com.apple.m4a-audio"@ {
        Some("m4a"@)
    } else if id == "public.3gpp"@ {
        Some("3gp"@)
    } else {
        None
    }
}

/// A file type identifier used for recording output.
#[derive(Debug, Clone, PartialEq, Eq, Hash)]
pub struct SCRecordingOutputFileType {
    id: String,
}

impl SCRecordingOutputFileType {
    /// The identifier text.
    pub closed spec fn id(&self) -> Seq<char> {
        self.id@
    }

    fn known(id: &str) -> (t: Self)
        ensures
            t.id() == id@,
    {
        SCRecordingOutputFileType { id: String::from_str(id) }
    }

    /// MPEG-4 file (`.mp4`)
    pub fn mp4() -> (t: Self)
        ensures
            t.id() == "public.mpeg-4"@,
    {
        Self::known("public.mpeg-4")
    }

    /// QuickTime movie (`.mov`)
    pub fn mov() -> (t: Self)
        ensures
            t.id() == "com.apple.quicktime-movie"@,
    {
        Self::known("com.apple.quicktime-movie")
    }

    /// iTunes video (`.m4v`)
    pub fn m4v() -> (t: Self)
        ensures
            t.id() == "com.apple.m4v-video"@,
    {
        Self::known("com.apple.m4v-video")
    }

    /// iTunes audio (`.m4a`)
    pub fn m4a() -> (t: Self)
        ensures
            t.id() == "com.apple.m4a-audio"@,
    {
        Self::known("com.apple.m4a-audio")
    }

    /// 3GPP file (`.3gp`)
    pub fn mobile_3gpp() -> (t: Self)
        ensures
            t.id() == "public.3gpp"@,
    {
        Self::known("public.3gpp")
    }

    /// Construct an arbitrary file type identifier; refused when its bytes
    /// hold a NUL.
    pub fn from_identifier(identifier: String) -> (r: Result<Self, InvalidRecordingIdentifier>)
        ensures
            r is Err <==> has_nul_byte(identifier@),
            r matches Ok(t) ==> t.id() == identifier@,
    {
        if contains_nul(identifier.as_str()) {
            Err(InvalidRecordingIdentifier)
        } else {
            Ok(SCRecordingOutputFileType { id: identifier })
        }
    }

    /// The underlying identifier.
    pub fn identifier(&self) -> (s: &str)
        ensures
            s@ == self.id(),
    {
        self.id.as_str()
    }

    /// Conventional file extension, when the file type is known.
    pub fn extension(&self) -> (e: Option<&'static str>)
        ensures
            file_type_extension(self.id()) is None ==> e is None,
            file_type_extension(self.id()) matches Some(x) ==> e matches Some(s) && s@ == x,
    {
        let id = self.id.as_str();
        if same_text(id, "public.mpeg-4") {
            Some("mp4")
        } else if same_text(id, "com.apple.quicktime-movie") {
            Some("mov")
        } else if same_text(id, "com.apple.m4v-video") {
            Some("m4v")
        } else if same_text(id, "com.apple.m4a-audio") {
            Some("m4a")
        } else if same_text(id, "public.3gpp") {
            Some("3gp")
        } else {
            None
        }
    }

    /// The display name: the file type's short name when it is known,
    /// otherwise `file type ` followed by the identifier.
    pub fn display_name(&self) -> (s: String)
        ensures
            s@ == file_type_display(self.id()),
    {
        let id = self.id.as_str();
        if same_text(id, "public.mpeg-4") {
            String::from_str("MP4")
        } else if same_text(id, "com.apple.quicktime-movie") {
            String::from_str("MOV")
        } else if same_text(id, "com.apple.m4v-video") {
            String::from_str("M4V")
        } else if same_text(id, "com.apple.m4a-audio") {
            String::from_str("M4A")
        } else if same_text(id, "public.3gpp") {
            String::from_str("3GPP")
        } else {
            String::from_str("file type ").concat(id)
        }
    }
}

impl Default for SCRecordingOutputFileType {
    fn default() -> (t: Self)
        ensures
            t.id() == "public.mpeg-4"@,
    {
        Self::mp4()
    }
}

/// Receiver of recording lifecycle events; every event is ignored unless
/// the implementor handles it.
pub trait SCRecordingOutputDelegate {
    /// Recording started.
    fn recording_did_start(&self) {
    }

    /// Recording failed with the given message.
    fn recording_did_fail(&self, error: String) {
    }

    /// Recording finished.
    fn recording_did_finish(&self) {
    }
}

/// Look up the delegate registered under `key`.
pub fn lookup_delegate<V>(registry: &CallbackRegistry<V>, key: usize) -> (d: Option<&V>)
    ensures
        d is Some <==> registry@.contains_key(key),
        d matches Some(v) ==> *v == registry@[key],
{
    registry.get(key)
}

/// Remove and return the delegate registered under `key`.
pub fn remove_delegate<V>(registry: &mut CallbackRegistry<V>, key: usize) -> (d: Option<V>)
    requires
        old(registry).wf(),
    ensures
        final(registry).wf(),
        d is Some <==> old(registry)@.contains_key(key),
        d matches Some(v) ==> v == old(registry)@[key],
        final(registry)@ == old(registry)@.remove(key),
{
    registry.remove(key)
}

/// Settle the delegate registered under `key` once the native recording
/// output was or was not created: a created output keeps it registered for
/// its callbacks; otherwise nothing will call it, and it is removed and
/// returned.
pub fn settle_delegate<V>(registry: &mut CallbackRegistry<V>, key: usize, created: bool) -> (d: Option<V>)
    requires
        old(registry).wf(),
    ensures
        final(registry).wf(),
        created ==> d is None && final(registry)@ == old(registry)@,
        !created ==> final(registry)@ == old(registry)@.remove(key) && (d is Some
            <==> old(registry)@.contains_key(key)) && (d matches Some(v) ==> v == old(registry)@[key]),
{
    if created {
        None
    } else {
        remove_delegate(registry, key)
    }
}

/// The codec identifiers are Apple's four-character codes, each shown by
/// its codec's name: avc1 H.264, hvc1 HEVC, jpeg JPEG, apcn ProRes 422,
/// ap4h ProRes 4444, muxa HEVC with alpha, apch ProRes 422 HQ, apcs ProRes
/// 422 LT, apco ProRes 422 Proxy.
pub proof fn lemma_codec_names()
    ensures
        codec_display("avc1"@) == "H.264"@,
        codec_display("hvc1"@) == "HEVC"@,
        codec_display("jpeg"@) == "JPEG"@,
        codec_display("apcn"@) == "ProRes 422"@,
        codec_display("ap4h"@) == "ProRes 4444"@,
        codec_display("muxa"@) == "HEVC with alpha"@,
        codec_display("apch"@) == "ProRes 422 HQ"@,
        codec_display("apcs"@) == "ProRes 422 LT"@,
        codec_display("apco"@) == "ProRes 422 Proxy"@,
{
    reveal_strlit("avc1");
    reveal_strlit("hvc1");
    reveal_strlit("jpeg");
    reveal_strlit("apcn");
    reveal_strlit("ap4h");
    reveal_strlit("muxa");
    reveal_strlit("apch");
    reveal_strlit("apcs");
    reveal_strlit("apco");
    assert("hvc1"@[0] != "avc1"@[0]);
    assert("jpeg"@[0] != "avc1"@[0]);
    assert("jpeg"@[0] != "hvc1"@[0]);
    assert("apcn"@[1] != "avc1"@[1]);
    assert("apcn"@[0] != "hvc1"@[0]);
    assert("apcn"@[0] != "jpeg"@[0]);
    assert("ap4h"@[1] != "avc1"@[1]);
    assert("ap4h"@[0] != "hvc1"@[0]);
    assert("ap4h"@[0] != "jpeg"@[0]);
    assert("ap4h"@[2] != "apcn"@[2]);
    assert("muxa"@[0] != "avc1"@[0]);
    assert("muxa"@[0] != "hvc1"@[0]);
    assert("muxa"@[0] != "jpeg"@[0]);
    assert("muxa"@[0] != "apcn"@[0]);
    assert("muxa"@[0] != "ap4h"@[0]);
    assert("apch"@[1] != "avc1"@[1]);
    assert("apch"@[0] != "hvc1"@[0]);
    assert("apch"@[0] != "jpeg"@[0]);
    assert("apch"@[3] != "apcn"@[3]);
    assert("apch"@[2] != "ap4h"@[2]);
    assert("apch"@[0] != "muxa"@[0]);
    assert("apcs"@[1] != "avc1"@[1]);
    assert("apcs"@[0] != "hvc1"@[0]);
    assert("apcs"@[0] != "jpeg"@[0]);
    assert("apcs"@[3] != "apcn"@[3]);
    assert("apcs"@[2] != "ap4h"@[2]);
    assert("apcs"@[0] != "muxa"@[0]);
    assert("apcs"@[3] != "apch"@[3]);
    assert("apco"@[1] != "avc1"@[1]);
    assert("apco"@[0] != "hvc1"@[0]);
    assert("apco"@[0] != "jpeg"@[0]);
    assert("apco"@[3] != "apcn"@[3]);
    assert("apco"@[2] != "ap4h"@[2]);
    assert("apco"@[0] != "muxa"@[0]);
    assert("apco"@[3] != "apch"@[3]);
    assert("apco"@[3] != "apcs"@[3]);
}

/// The file type identifiers are the system's uniform type identifiers,
/// each shown by its format's name and saved with its usual extension:
/// MPEG-4 as MP4 / mp4, QuickTime as MOV / mov, M4V / m4v, M4A / m4a and
/// 3GPP / 3gp.
pub proof fn lemma_file_type_names()
    ensures
        file_type_display("public.mpeg-4"@) == "MP4"@,
        file_type_extension("public.mpeg-4"@) == Some("mp4"@),
        file_type_display("com.apple.quicktime-movie"@) == "MOV"@,
        file_type_extension("com.apple.quicktime-movie"@) == Some("mov"@),
        file_type_display("com.apple.m4v-video"@) == "M4V"@,
        file_type_extension("com.apple.m4v-video"@) == Some("m4v"@),
        file_type_display("com.apple.m4a-audio"@) == "M4A"@,
        file_type_extension("com.apple.m4a-audio"@) == Some("m4a"@),
        file_type_display("public.3gpp"@) == "3GPP"@,
        file_type_extension("public.3gpp"@) == Some("3gp"@),
{
    reveal_strlit("public.mpeg-4");
    reveal_strlit("com.apple.quicktime-movie");
    reveal_strlit("com.apple.m4v-video");
    reveal_strlit("com.apple.m4a-audio");
    reveal_strlit("public.3gpp");
    assert("com.apple.quicktime-movie"@.len() != "public.mpeg-4"@.len());
    assert("com.apple.m4v-video"@.len() != "public.mpeg-4"@.len());
    assert("com.apple.m4v-video"@.len() != "com.apple.quicktime-movie"@.len());
    assert("com.apple.m4a-audio"@.len() != "public.mpeg-4"@.len());
    assert("com.apple.m4a-audio"@.len() != "com.apple.quicktime-movie"@.len());
    assert("com.apple.m4a-audio"@[12] != "com.apple.m4v-video"@[12]);
    assert("public.3gpp"@.len() != "public.mpeg-4"@.len());
    assert("public.3gpp"@.len() != "com.apple.quicktime-movie"@.len());
    assert("public.3gpp"@.len() != "com.apple.m4v-video"@.len());
    assert("public.3gpp"@.len() != "com.apple.m4a-audio"@.len());
}

} // verus!
