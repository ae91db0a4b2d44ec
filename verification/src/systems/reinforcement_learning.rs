pub mod company_controller;
