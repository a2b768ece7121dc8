//! Metadata records for published module packages, and the gas parameters of
//! the publish-request native call. These are plain value types: the
//! marshaling layer that fills them sits outside this crate.

use vstd::prelude::*;

verus! {

/// The package registry at a given address: every package installed there.
#[derive(Clone, Debug, PartialEq, Eq)]
pub struct PackageRegistry {
    /// Packages installed at this address.
    pub packages: Vec<PackageMetadata>,
}

/// Descriptor of one installed package.
#[derive(Clone, Debug, PartialEq, Eq)]
pub struct PackageMetadata {
    /// Name of this package.
    pub name: String,
    /// The upgrade policy of this package.
    pub upgrade_policy: UpgradePolicy,
    /// The number of times this package has been upgraded; doubles as the
    /// on-chain version.
    pub upgrade_number: u64,
    /// Build information, in manifest text form.
    pub build_info: String,
    /// The package manifest text.
    pub manifest: String,
    /// The list of modules installed by this package.
    pub modules: Vec<ModuleMetadata>,
    /// Error map, pre-encoded bytes.
    pub error_map: Vec<u8>,
    /// ABIs, each pre-encoded as bytes.
    pub abis: Vec<Vec<u8>>,
}

/// Descriptor of one module within a package.
#[derive(Clone, Debug, PartialEq, Eq)]
pub struct ModuleMetadata {
    /// Name of the module.
    pub name: String,
    /// Source text if available, in compressed form.
    pub source: Vec<u8>,
    /// Source map, encoded and then compressed.
    pub source_map: Vec<u8>,
}

/// How a package may be upgraded: `0` arbitrarily, `1` only compatibly,
/// `2` never.
#[derive(Clone, Copy, Debug, PartialEq, Eq, Structural)]
pub struct UpgradePolicy {
    pub policy: u8,
}

impl UpgradePolicy {
    /// The policy that allows any upgrade.
    pub fn arbitrary() -> (r: Self)
        ensures
            r.policy == 0,
    {
        UpgradePolicy { policy: 0 }
    }

    /// The policy that allows only compatible upgrades.
    pub fn compat() -> (r: Self)
        ensures
            r.policy == 1,
    {
        UpgradePolicy { policy: 1 }
    }

    /// The policy that forbids upgrades.
    pub fn immutable() -> (r: Self)
        ensures
            r.policy == 2,
    {
        UpgradePolicy { policy: 2 }
    }

    /// Parses a policy from its name; any other name is unknown.
    pub fn from_name(s: &String) -> (r: Option<UpgradePolicy>)
        ensures
            s@ == "arbitrary"@ ==> r == Some(UpgradePolicy { policy: 0u8 }),
            s@ == "compatible"@ ==> r == Some(UpgradePolicy { policy: 1u8 }),
            s@ == "immutable"@ ==> r == Some(UpgradePolicy { policy: 2u8 }),
            s@ != "arbitrary"@ && s@ != "compatible"@ && s@ != "immutable"@ ==> r is None,
    {
        proof {
            reveal_strlit("arbitrary");
            reveal_strlit("compatible");
            reveal_strlit("immutable");
            assert("arbitrary"@ != "compatible"@) by {
                assert("arbitrary"@.len() != "compatible"@.len());
            }
            assert("arbitrary"@ != "immutable"@) by {
                assert(("arbitrary"@)[0] == 'a' && ("immutable"@)[0] == 'i');
            }
            assert("compatible"@ != "immutable"@) by {
                assert("compatible"@.len() != "immutable"@.len());
            }
        }
        if *s == "arbitrary".to_owned() {
            Some(UpgradePolicy::arbitrary())
        } else if *s == "compatible".to_owned() {
            Some(UpgradePolicy::compat())
        } else if *s == "immutable".to_owned() {
            Some(UpgradePolicy::immutable())
        } else {
            None
        }
    }

    /// The policy's name; the inverse of `from_name` on the three known
    /// policies, with every unknown level shown as immutable.
    pub fn policy_name(&self) -> (r: String)
        ensures
            self.policy == 0 ==> r@ == "arbitrary"@,
            self.policy == 1 ==> r@ == "compatible"@,
            self.policy >= 2 ==> r@ == "immutable"@,
    {
        if self.policy == 0 {
            "arbitrary".to_owned()
        } else if self.policy == 1 {
            "compatible".to_owned()
        } else {
            "immutable".to_owned()
        }
    }
}

/// Gas parameters of the publish-request native call: a flat base charge plus
/// a per-byte charge over the published code and the expected module names.
#[derive(Clone, Copy, Debug, PartialEq, Eq, Structural)]
pub struct RequestPublishGasParameters {
    pub base_cost: u64,
    pub unit_cost: u64,
}

/// Gas parameters for every native call of the module-code package.
#[derive(Clone, Copy, Debug, PartialEq, Eq, Structural)]
pub struct GasParameters {
    pub request_publish: RequestPublishGasParameters,
}

} // verus!
