//! Acquisition and normalisation of daily canteen menus: the canteen directory,
//! dish extraction from menu markup, price normalisation, work planning and
//! the filtering of fetched menus.

pub mod canteen;
pub mod dish;
mod markup;
pub mod menu;
pub mod plan;
pub mod price;
pub mod store;
pub mod text;

pub use canteen::Canteen;
pub use dish::{Dish, DishFragment, DishType, PriceEntry};
pub use menu::{menu_from_fragments, menu_from_html};
pub use plan::{parse_exclusions, plan_work, WorkItem};
pub use price::{price_to_bigdecimal, replace_commas, Decimal};
pub use store::{meal_record, menu_records, successful_menus, FetchOutcome, MealRecord, MenuBatch};
pub use text::{str_eq, trim_whitespace};
