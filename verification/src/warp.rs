//! The configuration under construction, the renderer for the final
//! two-section text, and the decisions of the pipeline around the one
//! network call.

use vstd::prelude::*;

use crate::errors::MalformedResponseError;
use crate::errors::TransportError;
use crate::errors::WarpError;
use crate::keys::generate_privkey_base64;
use crate::keys::derive_pubkey_base64;
use crate::keys::parses_as_privkey;
use crate::keys::pubkey_of;
use crate::payload::build_registration_payload;
use crate::payload::spec_payload;
use crate::response::RegistrationResult;
use crate::response::doc_of;
use crate::response::json_parses;
use crate::response::parse_registration_response;
use crate::response::spec_registration_of;
use crate::timestamp::Timestamp;
use vstd::string::StringExecFns;

verus! {

/// A client configuration as the pipeline fills it in: first the keypair,
/// then the fields taken from the registration response.
#[derive(Debug)]
pub struct WarpConfig {
    pub private_key: String,
    pub public_key: String,
    pub address_v4: String,
    pub address_v6: String,
    pub peer_public_key: String,
    pub endpoint: String,
}

/// The rendered configuration text: an `Interface` section with the private
/// key, both addresses and the fixed DNS servers, one blank line, and a
/// `Peer` section with the peer's key, the fixed allowed ranges and the
/// peer's endpoint host.
pub open spec fn spec_format_config(c: WarpConfig) -> Seq<char> {
    "[Interface]\nPrivateKey = "@ + c.private_key@ + "\nAddress = "@ + c.address_v4@ + ", "@
        + c.address_v6@
        + "\nDNS = 1.1.1.1, 2606:4700:4700::1111, 1.0.0.1, 2606:4700:4700::1001\n\n[Peer]\nPublicKey = "@
        + c.peer_public_key@ + "\nAllowedIPs = 0.0.0.0/0, ::/0\nEndpoint = "@ + c.endpoint@ + "\n"@
}

impl Default for WarpConfig {
    /// Every field empty, as before the pipeline has run.
    fn default() -> (r: WarpConfig)
        ensures
            r.private_key@ == Seq::<char>::empty(),
            r.public_key@ == Seq::<char>::empty(),
            r.address_v4@ == Seq::<char>::empty(),
            r.address_v6@ == Seq::<char>::empty(),
            r.peer_public_key@ == Seq::<char>::empty(),
            r.endpoint@ == Seq::<char>::empty(),
    {
        WarpConfig {
            private_key: String::new(),
            public_key: String::new(),
            address_v4: String::new(),
            address_v6: String::new(),
            peer_public_key: String::new(),
            endpoint: String::new(),
        }
    }
}

impl WarpConfig {
    /// A configuration from given field values.
    pub fn new(
        private_key: String,
        public_key: String,
        address_v4: String,
        address_v6: String,
        peer_public_key: String,
        endpoint: String,
    ) -> (r: WarpConfig)
        ensures
            r == (WarpConfig {
                private_key,
                public_key,
                address_v4,
                address_v6,
                peer_public_key,
                endpoint,
            }),
    {
        WarpConfig { private_key, public_key, address_v4, address_v6, peer_public_key, endpoint }
    }

    /// Fills in a fresh keypair: the public key is derived from the newly
    /// generated private key, and the other fields keep their values.
    pub fn generate_keys(&mut self)
        ensures
            final(self).public_key@ == pubkey_of(final(self).private_key@),
            parses_as_privkey(final(self).private_key@),
            final(self).private_key@.len() == 44,
            final(self).public_key@.len() == 44,
            final(self).address_v4 == old(self).address_v4,
            final(self).address_v6 == old(self).address_v6,
            final(self).peer_public_key == old(self).peer_public_key,
            final(self).endpoint == old(self).endpoint,
    {
        self.private_key = generate_privkey_base64();
        self.public_key = derive_pubkey_base64(self.private_key.as_str());
    }

    /// Takes over the four fields of a registration result; the keypair
    /// keeps its values.
    pub fn apply_registration(&mut self, registration: RegistrationResult)
        ensures
            final(self).address_v4 == registration.address_v4,
            final(self).address_v6 == registration.address_v6,
            final(self).peer_public_key == registration.peer_public_key,
            final(self).endpoint == registration.peer_endpoint,
            final(self).private_key == old(self).private_key,
            final(self).public_key == old(self).public_key,
    {
        self.address_v4 = registration.address_v4;
        self.address_v6 = registration.address_v6;
        self.peer_public_key = registration.peer_public_key;
        self.endpoint = registration.peer_endpoint;
    }

    /// Renders the configuration text; pure formatting, it always succeeds.
    pub fn format_config(&self) -> (r: Result<String, WarpError>)
        ensures
            r matches Ok(s) && s@ == spec_format_config(*self),
    {
        let mut output = "[Interface]\nPrivateKey = ".to_owned();
        output.append(self.private_key.as_str());
        output.append("\nAddress = ");
        output.append(self.address_v4.as_str());
        output.append(", ");
        output.append(self.address_v6.as_str());
        output.append(
            "\nDNS = 1.1.1.1, 2606:4700:4700::1111, 1.0.0.1, 2606:4700:4700::1001\n\n[Peer]\nPublicKey = ",
        );
        output.append(self.peer_public_key.as_str());
        output.append("\nAllowedIPs = 0.0.0.0/0, ::/0\nEndpoint = ");
        output.append(self.endpoint.as_str());
        output.append("\n");
        proof {
            assert(output@ =~= spec_format_config(*self));
        }
        Ok(output)
    }

    /// The first half of a pipeline run: fills in a fresh keypair and builds
    /// the registration payload that embeds its public key.
    pub fn prepare_registration(&mut self, now: &Timestamp) -> (r: String)
        requires
            now.wf(),
        ensures
            r@ == spec_payload(final(self).public_key@, *now),
            final(self).public_key@ == pubkey_of(final(self).private_key@),
            parses_as_privkey(final(self).private_key@),
            final(self).address_v4 == old(self).address_v4,
            final(self).address_v6 == old(self).address_v6,
            final(self).peer_public_key == old(self).peer_public_key,
            final(self).endpoint == old(self).endpoint,
    {
        self.generate_keys();
        build_registration_payload(self.public_key.as_str(), now)
    }

    /// The second half of a pipeline run, deciding on the outcome of the one
    /// network call: a transport failure aborts with `Transport` and leaves
    /// the configuration untouched; a body that is not valid JSON aborts
    /// with `InvalidJson`; a parsed body fills the configuration, which is
    /// rendered. Rendering never fails, so neither `KeyGeneration` nor
    /// `Render` is ever surfaced here.
    pub fn complete_registration(&mut self, outcome: Result<String, TransportError>) -> (r: Result<
        String,
        WarpError,
    >)
        ensures
            outcome matches Err(e) ==> r == Err::<String, WarpError>(WarpError::Transport(e)),
            (r matches Err(e) && e is Transport) ==> outcome is Err,
            r is Err ==> *final(self) == *old(self),
            r matches Err(e) ==> (e is Transport || e is MalformedResponse),
            outcome matches Ok(body) && !json_parses(body@) ==> r == Err::<String, WarpError>(
                WarpError::MalformedResponse(MalformedResponseError::InvalidJson),
            ),
            (match outcome {
                Ok(body) => json_parses(body@) ==> (match spec_registration_of(doc_of(body@)) {
                    Ok(v) => {
                        &&& r matches Ok(s)
                        &&& s@ == spec_format_config(*final(self))
                        &&& final(self).address_v4@ == v.address_v4
                        &&& final(self).address_v6@ == v.address_v6
                        &&& final(self).peer_public_key@ == v.peer_public_key
                        &&& final(self).endpoint@ == v.peer_endpoint
                    },
                    Err(m) => r == Err::<String, WarpError>(WarpError::MalformedResponse(m)),
                }),
                Err(_) => true,
            }),
            r matches Ok(s) ==> outcome is Ok && s@ == spec_format_config(*final(self)),
            final(self).private_key == old(self).private_key,
            final(self).public_key == old(self).public_key,
    {
        match outcome {
            Err(e) => Err(WarpError::Transport(e)),
            Ok(body) => match parse_registration_response(body.as_str()) {
                Err(m) => Err(WarpError::MalformedResponse(m)),
                Ok(registration) => {
                    self.apply_registration(registration);
                    match self.format_config() {
                        Ok(s) => Ok(s),
                        Err(_) => Err(WarpError::Render),
                    }
                },
            },
        }
    }
}

} // verus!
