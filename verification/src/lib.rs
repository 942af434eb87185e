//! The consistency core of a single-till retail shop: stock levels,
//! sales, returns and customer debt, mutated only through verified,
//! all-or-nothing operations over one in-memory store.

pub mod tarix;
pub mod xeta;
pub mod model;
pub mod store;
pub mod stok;
mod kenar;
pub mod satis;
pub mod qaytarma;
pub mod musteri;
pub mod mehsul;
pub mod borc;
pub mod hesabat;
pub mod kanunlar;
pub mod sobe;
pub mod deyer;
pub mod detallar;
pub mod qazanc;
pub mod statistika;

pub use tarix::Tarix;
pub use xeta::Xeta;
pub use model::{
    HereketNovu, HereketQeydi, HereketSetri, IstifadeciSetri, KateqoriyaSetri, MehsulSetri,
    MusteriSetri, OdemeSetri, OdenisUsulu, OlcuSetri, QaytarmaElementi, QaytarmaSetri, RengSetri,
    Rol, SatisElementi, SatisSetri, StokSetri,
};
pub use store::{Settings, Store, UpdateSettings};
pub use stok::{CreateStock, Stock, StockMovement, UpdateStock};
pub use satis::{CreateSale, CreateSaleItem, Sale, SaleItem, SaleWithItems};
pub use qaytarma::{CreateReturn, CreateReturnItem, Return, ReturnItem, ReturnWithItems};
pub use kenar::bugun;
pub use musteri::{CreateCustomer, Customer, UpdateCustomer};
pub use mehsul::{CreateProduct, Product, ProductWithStock, StockInfo, UpdateProduct};
pub use borc::{CreateDebtPayment, CustomerDebtSummary, DebtPayment};
pub use sobe::{Category, Color, CreateCategory, CreateColor, CreateSize, Size};
pub use deyer::StockValueReport;
pub use detallar::ProductMovementDetail;
pub use qazanc::{ProfitReport, ProfitReportItem};
pub use statistika::{ProductStatistics, ProductStatisticsReport};
pub use hesabat::{
    DailySalesReport, IadeDurumu, LowStockAlert, MonthlySalesReport, SaleListItem, SalesListFilter,
};
