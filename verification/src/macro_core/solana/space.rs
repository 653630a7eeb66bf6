//! What is derived for a resource set that declares its space: the function
//! that manufactures an arbitrary one.

use vstd::prelude::*;
use crate::macro_core::account::{
    any_impl,
    any_source,
    any_view,
    instruction_args,
    instruction_args_spec,
    AccountField,
    AccountsStruct,
    ArgsError,
    ParsedArg,
};

verus! {

/// Writes the function that manufactures an arbitrary resource set: a field
/// held in a box gets a boxed arbitrary value, every other field an
/// arbitrary value.  The attributes of the set must declare the handler's
/// parameters well, though the function does not use them: `groups` holds
/// what the parser made of the pieces they list.
pub fn derive_init_space(groups: &Vec<Option<Vec<ParsedArg>>>, val: &AccountsStruct) -> (r: Result<
    String,
    ArgsError,
>)
    ensures
        match r {
            Ok(out) => instruction_args_spec(groups@) is Ok && out@ == any_source(
                val.ident@,
                val.generics@,
                val.fields@.map_values(|f: AccountField| any_view(f)),
            ),
            Err(e) => instruction_args_spec(groups@) == Err::<
                Seq<(Seq<char>, Seq<char>)>,
                ArgsError,
            >(e),
        },
{
    match instruction_args(groups) {
        Ok(_) => Ok(any_impl(val)),
        Err(e) => Err(e),
    }
}

} // verus!
