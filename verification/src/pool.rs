use vstd::prelude::*;

verus! {

#[verifier::external_type_specification]
#[verifier::external_body]
pub struct ExContext(protofish::context::Context);

#[verifier::external_type_specification]
#[verifier::external_body]
pub struct ExMessageValue(protofish::decode::MessageValue);

/// The fully qualified message names a compiled descriptor pool holds.
pub uninterp spec fn pool_messages(ctx: protofish::context::Context) -> Set<Seq<char>>;

/// Relies on protofish's Context::get_message: a by-name lookup in the pool's
/// own tables, total for every context protofish itself constructed (the
/// indices it follows are the pool's own), answering exactly whether the pool
/// holds a message of that fully qualified name.
#[verifier::external_body]
pub(crate) fn pool_has_message(ctx: &protofish::context::Context, full_name: &String) -> (r: bool)
    ensures
        r == pool_messages(*ctx).contains(full_name@),
{
    ctx.get_message(full_name.as_str()).is_some()
}

} // verus!
