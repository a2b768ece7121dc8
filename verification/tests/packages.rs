use quorum_store::code::{
    GasParameters, ModuleMetadata, PackageMetadata, PackageRegistry, RequestPublishGasParameters,
    UpgradePolicy,
};

#[test]
fn upgrade_policy_constructors() {
    assert_eq!(UpgradePolicy::arbitrary().policy, 0);
    assert_eq!(UpgradePolicy::compat().policy, 1);
    assert_eq!(UpgradePolicy::immutable().policy, 2);
    assert_ne!(UpgradePolicy::arbitrary(), UpgradePolicy::immutable());
}

#[test]
fn upgrade_policy_names_round_trip() {
    assert_eq!(
        UpgradePolicy::from_name(&String::from("arbitrary")),
        Some(UpgradePolicy::arbitrary())
    );
    assert_eq!(
        UpgradePolicy::from_name(&String::from("compatible")),
        Some(UpgradePolicy::compat())
    );
    assert_eq!(
        UpgradePolicy::from_name(&String::from("immutable")),
        Some(UpgradePolicy::immutable())
    );
    assert_eq!(UpgradePolicy::from_name(&String::from("frozen")), None);
    assert_eq!(UpgradePolicy::from_name(&String::from("")), None);
    assert_eq!(UpgradePolicy::arbitrary().policy_name(), "arbitrary");
    assert_eq!(UpgradePolicy::compat().policy_name(), "compatible");
    assert_eq!(UpgradePolicy::immutable().policy_name(), "immutable");
    // Unknown levels are shown as immutable.
    assert_eq!(UpgradePolicy { policy: 9 }.policy_name(), "immutable");
}

#[test]
fn package_records_hold_their_fields() {
    let module = ModuleMetadata {
        name: String::from("coin"),
        source: vec![1, 2],
        source_map: vec![3],
    };
    let package = PackageMetadata {
        name: String::from("framework"),
        upgrade_policy: UpgradePolicy::compat(),
        upgrade_number: 4,
        build_info: String::from("build"),
        manifest: String::from("manifest"),
        modules: vec![module.clone()],
        error_map: vec![9],
        abis: vec![vec![8, 7]],
    };
    let registry = PackageRegistry { packages: vec![package.clone()] };
    assert_eq!(registry.packages.len(), 1);
    assert_eq!(registry.packages[0], package);
    assert_eq!(registry.packages[0].modules[0], module);
    assert_eq!(registry.packages[0].upgrade_policy, UpgradePolicy::compat());
}

#[test]
fn gas_parameters_hold_their_costs() {
    let gas = GasParameters {
        request_publish: RequestPublishGasParameters { base_cost: 100, unit_cost: 3 },
    };
    assert_eq!(gas.request_publish.base_cost, 100);
    assert_eq!(gas.request_publish.unit_cost, 3);
}
