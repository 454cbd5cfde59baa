//! Device identity: a stable id, a user-visible name and an X25519 keypair.

use vstd::prelude::*;

use crate::crypto::{new_uuid, x25519_public_key, x25519_public_of, x25519_random_private};

verus! {

/// This device's identity. The private key is kept only inside the vault;
/// a copy handed to other components may have it stripped.
pub struct DeviceIdentity {
    pub device_id: String,
    pub device_name: String,
    pub public_key: Vec<u8>,
    pub private_key: Option<Vec<u8>>,
    /// Unix time of creation, in milliseconds.
    pub created_at: i64,
}

impl DeviceIdentity {
    /// A well-formed identity: 32-byte keys, the public key belonging to the
    /// private key when the private key is present.
    pub open spec fn wf(&self) -> bool {
        &&& self.public_key@.len() == 32
        &&& self.private_key matches Some(p) ==> p@.len() == 32 && self.public_key@
            == x25519_public_of(p@)
    }
}

impl Clone for DeviceIdentity {
    /// A field-for-field copy.
    fn clone(&self) -> (r: Self)
        ensures
            r.device_id@ == self.device_id@,
            r.device_name@ == self.device_name@,
            r.public_key@ == self.public_key@,
            r.private_key is Some <==> self.private_key is Some,
            r.private_key matches Some(p) ==> self.private_key matches Some(q) && p@ == q@,
            r.created_at == self.created_at,
            self.wf() ==> r.wf(),
    {
        DeviceIdentity {
            device_id: self.device_id.clone(),
            device_name: self.device_name.clone(),
            public_key: self.public_key.clone(),
            private_key: match &self.private_key {
                Some(p) => Some(p.clone()),
                None => None,
            },
            created_at: self.created_at,
        }
    }
}

/// Create a fresh device identity: a new UUID, a new X25519 keypair, and the
/// given name and creation time. The result is well formed and carries its
/// private key.
pub fn generate_device_identity(device_name: &str, now_ms: i64) -> (r: DeviceIdentity)
    ensures
        r.wf(),
        r.device_name@ == device_name@,
        r.device_id@.len() == 36,
        r.private_key is Some,
        r.created_at == now_ms,
{
    let device_id = new_uuid();
    let private_key = x25519_random_private();
    let public_key = x25519_public_key(private_key.as_slice());
    DeviceIdentity {
        device_id,
        device_name: String::from_str(device_name),
        public_key,
        private_key: Some(private_key),
        created_at: now_ms,
    }
}

} // verus!
