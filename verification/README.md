# pos

Sistema de gestión para kioscos y almacenes: catálogo y precios, recepciones
de mercadería con etiquetado, inventario con lotes y FEFO, ventas y caja,
cuenta corriente de clientes, identidad y permisos.

- `src/`: la biblioteca verificada con Verus. Toda decisión de negocio vive
  acá (cálculo de precios, confirmación de recepciones, reparto FEFO, ajustes
  de stock, sincronización de ventas, arqueos, fiado, permisos, firma HMAC de
  la etiquetadora), con contratos sobre modelos matemáticos y leyes probadas.
- `app/`: el servidor HTTP (Axum + SQLx sobre PostgreSQL). Lee de la base,
  le pasa valores planos a la biblioteca y persiste lo que ella decide.
- `tests/`: pruebas de la biblioteca sobre valores concretos.

Dinero en centavos enteros; cantidades en milésimas (NUMERIC(12,3));
porcentajes en centésimos (NUMERIC(5,2)); fechas como número de día.
