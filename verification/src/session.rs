//! The streaming session client and its protocol sequencing.
//!
//! A session runs over one persistent secure socket.  The connection
//! itself is plumbing that lives outside the crate; what is pinned here
//! is everything the socket carries: the endpoint and headers presented
//! at the handshake, and the rule that exactly one configuration frame
//! precedes any audio.  Zero-length chunks are dropped, never sent.

use vstd::prelude::*;
use vstd::string::StringExecFns;
use crate::audio::le_high;
use crate::audio::le_low;
use crate::audio::pcm_to_bytes;
use crate::messages::audio_append_message;
use crate::messages::commit_message;
use crate::messages::session_update_message;
use crate::messages::spec_audio_append_message;
use crate::messages::spec_commit_message;
use crate::messages::spec_session_update_message;
use crate::messages::SessionConfig;

verus! {

/// The little-endian byte image of a block of PCM16 samples.
pub open spec fn spec_le_bytes(s: Seq<i16>) -> Seq<u8> {
    Seq::new(
        (2 * s.len()) as nat,
        |i: int|
            if i % 2 == 0 {
                le_low(s[i / 2])
            } else {
                le_high(s[i / 2])
            },
    )
}

/// A client of the realtime transcription service, holding the
/// credential it presents at the handshake.
pub struct RealtimeClient {
    api_key: String,
}

impl RealtimeClient {
    /// The credential this client presents.
    pub closed spec fn key(&self) -> Seq<char> {
        self.api_key@
    }

    pub fn new(api_key: String) -> (c: RealtimeClient)
        ensures
            c.key() == api_key@,
    {
        RealtimeClient { api_key }
    }

    /// The fixed endpoint of the realtime transcription service.
    pub fn endpoint_url() -> (u: &'static str)
        ensures
            u@ == "wss://api.openai.com/v1/realtime?model=gpt-4o-realtime-preview-2024-12-17"@,
    {
        "wss://api.openai.com/v1/realtime?model=gpt-4o-realtime-preview-2024-12-17"
    }

    /// The authorization header presented at the handshake.
    pub fn auth_header_value(&self) -> (h: String)
        ensures
            h@ == "Bearer "@ + self.key(),
    {
        let mut h = String::from_str("Bearer ");
        h.append(self.api_key.as_str());
        h
    }

    /// The protocol-version header presented at the handshake.
    pub fn beta_header_value() -> (h: String)
        ensures
            h@ == "realtime=v1"@,
    {
        String::from_str("realtime=v1")
    }
}

/// The outbound half of one session, sequencing its frames: the
/// configuration frame must go out before any audio or commit.
pub struct SessionProtocol {
    configured: bool,
    config: SessionConfig,
}

impl SessionProtocol {
    /// Whether the configuration frame has been produced.
    pub closed spec fn is_configured(&self) -> bool {
        self.configured
    }

    /// The configuration this session was built with.
    pub closed spec fn spec_config(&self) -> SessionConfig {
        self.config
    }

    /// A new session; nothing may be sent before `configure`.
    pub fn new(config: SessionConfig) -> (s: SessionProtocol)
        requires
            config.wf(),
        ensures
            !s.is_configured(),
            s.spec_config() == config,
            s.spec_config().wf(),
    {
        SessionProtocol { configured: false, config }
    }

    /// Produce the one session-configuration frame.  It precedes any
    /// audio: the audio and commit builders demand a configured session,
    /// and this function refuses to run twice.
    pub fn configure(&mut self) -> (msg: String)
        requires
            !old(self).is_configured(),
            old(self).spec_config().wf(),
        ensures
            final(self).is_configured(),
            final(self).spec_config() == old(self).spec_config(),
            final(self).spec_config().wf(),
            msg@ == spec_session_update_message(old(self).spec_config()),
    {
        self.configured = true;
        session_update_message(&self.config)
    }

    /// Frame a resampled chunk for the wire, or nothing for an empty
    /// chunk: zero-length chunks are dropped, not sent.
    pub fn audio_message(&self, samples: &[i16]) -> (m: Option<String>)
        requires
            self.is_configured(),
            samples@.len() <= 0x1000_0000,
        ensures
            m is Some <==> samples@.len() > 0,
            m matches Some(msg) ==> msg@ == spec_audio_append_message(spec_le_bytes(samples@)),
    {
        if samples.len() == 0 {
            return None;
        }
        let bytes = pcm_to_bytes(samples);
        proof {
            assert(bytes@ =~= spec_le_bytes(samples@));
        }
        Some(audio_append_message(bytes.as_slice()))
    }

    /// The explicit buffer-commit frame, forcing transcription of
    /// whatever audio the service holds.
    pub fn commit(&self) -> (msg: String)
        requires
            self.is_configured(),
        ensures
            msg@ == spec_commit_message(),
    {
        commit_message()
    }
}

} // verus!
