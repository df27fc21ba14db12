//! A small declarative widget-tree framework whose core is a typed message
//! bus with explicit handler registration and shared mutable element state.
//!
//! The bus identifies message kinds by stable integer tags, keeps its handler
//! and subscription tables in insertion order, and dispatches synchronously:
//! `send` runs every matching handler to completion, in registration order,
//! before it returns. Element state that handlers may mutate lives in a
//! central store and is reached through copyable handles, so sharing needs no
//! runtime borrow checking.

pub mod bus;
pub mod girl;
pub mod message;
pub mod registry;
pub mod state;
pub mod widgets;

pub use bus::BusInstance;
pub use bus::DispatchRecord;
pub use bus::EventBus;
pub use bus::EventBusHandle;
pub use bus::EventBusReceiver;
pub use bus::HandlerSlot;
pub use bus::RecvPoll;
pub use bus::event_bus;
pub use girl::Appearance;
pub use girl::BodyType;
pub use girl::Girl;
pub use girl::GirlActions;
pub use girl::HairColor;
pub use girl::SkinColor;
pub use message::Message;
pub use message::MessageContext;
pub use message::MessageHandler;
pub use registry::Finalized;
pub use registry::HandlerRegistry;
pub use registry::HandlerRegistryEntry;
pub use registry::finalize_instance;
pub use registry::has_registered_handlers;
pub use registry::register_handlers_for_instance;
pub use state::State;
pub use state::StateStore;
pub use widgets::Board;
pub use widgets::Button;
pub use widgets::Card;
pub use widgets::ClickHandler;
pub use widgets::Element;
pub use widgets::Form;
pub use widgets::HAlign;
pub use widgets::InnerMovement;
pub use widgets::InnerTicker;
pub use widgets::IntoObject;
pub use widgets::MessageReceiver;
pub use widgets::Object;
pub use widgets::Row;
pub use widgets::Size;
pub use widgets::Switch;
pub use widgets::Text;
pub use widgets::TextClock;
pub use widgets::TextInput;
pub use widgets::UpdateContext;
pub use widgets::VAlign;
pub use widgets::VIEWPORT_HEIGHT;
pub use widgets::VIEWPORT_WIDTH;
pub use widgets::World;
