//! The provider block that says in which region the resources live.

use crate::aws::region::Region;
use crate::ir::{attribute, Block, BlockView, Expr, ExprView};
use vstd::prelude::*;

verus! {

/// The configuration of the provider.
#[derive(Debug, Clone, Copy)]
pub struct AwsProvider {
    /// The region in which resources are created.
    pub region: Region,
}

impl AwsProvider {
    /// The block that the provider compiles to: a `provider` block labelled
    /// `aws` whose only attribute is the region.
    pub open spec fn spec_block(&self) -> BlockView {
        BlockView::new("provider"@).label("aws"@).items(
            attribute("region"@, ExprView::String(self.region.spec_name())),
        )
    }

    /// Compiles the provider into its block.
    pub fn compile(&self) -> (block: Block)
        ensures
            block@ == self.spec_block(),
    {
        Block::builder("provider").add_label("aws").add_attribute(
            "region",
            Expr::from(self.region),
        ).build()
    }
}

/// What the conversion gives is stated by the `ensures` of `from` itself.
impl vstd::std_specs::convert::FromSpecImpl<AwsProvider> for Block {
    open spec fn obeys_from_spec() -> bool {
        false
    }

    open spec fn from_spec(provider: AwsProvider) -> Block {
        arbitrary()
    }
}

impl From<AwsProvider> for Block {
    /// Compiles the provider into its block.
    fn from(provider: AwsProvider) -> (block: Block)
        ensures
            block@ == provider.spec_block(),
    {
        provider.compile()
    }
}

} // verus!
