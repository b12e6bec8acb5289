use vstd::prelude::*;

verus! {

/// Why the device could not be set up. Each is fatal: there is no recovery.
#[derive(Clone, Copy, Debug, PartialEq, Eq, Structural)]
pub enum SetupError {
    /// The adapter lacks these required features (a feature bit set).
    MissingFeatures(u64),
    /// The adapter's shader model is below the required one.
    ShaderModelTooLow,
    /// The adapter lacks these required downlevel capabilities (a flag bit set).
    MissingDownlevelFlags(u32),
}

/// The features to request from an adapter offering `adapter`: every required one, and the
/// optional ones the adapter has. Fails when a required feature is missing.
pub fn negotiate_features(adapter: u64, required: u64, optional: u64) -> (r: Result<u64, SetupError>)
    ensures
        r is Err <==> required & !adapter != 0,
        r matches Err(e) ==> e == SetupError::MissingFeatures(required & !adapter),
        r matches Ok(f) ==> f == (optional & adapter) | required,
{
    let missing = required & !adapter;
    if missing != 0 {
        Err(SetupError::MissingFeatures(missing))
    } else {
        Ok((optional & adapter) | required)
    }
}

/// The optional features the adapter does not offer (worth a warning, not an error).
pub fn missing_optional_features(adapter: u64, optional: u64) -> (r: u64)
    ensures
        r == optional & !adapter,
{
    optional & !adapter
}

/// Checks the adapter's shader model (as a rank: higher is more capable) and downlevel
/// capability flags against the required ones.
pub fn check_downlevel(
    shader_model: u32,
    flags: u32,
    required_shader_model: u32,
    required_flags: u32,
) -> (r: Result<(), SetupError>)
    ensures
        shader_model < required_shader_model ==> r == Err::<(), SetupError>(
            SetupError::ShaderModelTooLow,
        ),
        shader_model >= required_shader_model && required_flags & !flags != 0 ==> r == Err::<
            (),
            SetupError,
        >(SetupError::MissingDownlevelFlags(required_flags & !flags)),
        r is Ok <==> shader_model >= required_shader_model && required_flags & !flags == 0,
{
    if shader_model < required_shader_model {
        return Err(SetupError::ShaderModelTooLow);
    }
    let missing = required_flags & !flags;
    if missing != 0 {
        Err(SetupError::MissingDownlevelFlags(missing))
    } else {
        Ok(())
    }
}

} // verus!
