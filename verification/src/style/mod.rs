pub mod box_prop;
pub mod computed;
pub mod key;
pub mod listener;
pub mod node;
pub mod number;
pub mod parsed_styles;
pub mod prop;
pub mod style_listener;

pub use box_prop::parse_box_prop;
pub use key::StylePropKey;
pub use parsed_styles::{ParsedStyleProp, ParsedStyles, StyleList};
pub use prop::{FixedStyleProp, PropValueParse, ResolvedStyleProp, StylePropVal};
