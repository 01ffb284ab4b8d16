//! The call frame of the hosts between the older and the newer ones: the same
//! two parallel arrays as in [`crate::pg10_specific`].
pub use crate::pg10_specific::{
    lemma_allocate_refuses_more_than_the_arrays_hold, FunctionCallInfoData,
};
